//! Rendering of pending flash messages.
use vstd::prelude::*;

verus! {

/// Each message followed by a newline, in order.
pub open spec fn flash_lines(messages: Seq<String>) -> Seq<char>
    decreases messages.len(),
{
    if messages.len() == 0 {
        Seq::empty()
    } else {
        flash_lines(messages.drop_last()) + messages.last()@ + "\n"@
    }
}

/// The flash box renders messages one after another, in order, each followed by a newline:
/// rendering two lists of messages in turn gives the rendering of the
/// first list followed by that of the second, and a single message renders
/// as its own text and a newline.
pub proof fn lemma_flash_lines_in_order(first: Seq<String>, second: Seq<String>, message: String)
    ensures
        flash_lines(first + second) == flash_lines(first) + flash_lines(second),
        flash_lines(seq![message]) == message@ + "\n"@,
    decreases second.len(),
{
    assert(seq![message].drop_last() =~= Seq::<String>::empty());
    assert(flash_lines(Seq::<String>::empty()) =~= Seq::<char>::empty());
    if second.len() == 0 {
        assert(first + second =~= first);
        assert(flash_lines(first) + flash_lines(second) =~= flash_lines(first));
    } else {
        lemma_flash_lines_in_order(first, second.drop_last(), message);
        assert((first + second).drop_last() =~= first + second.drop_last());
        assert((first + second).last() == second.last());
        assert(flash_lines(first + second) =~= flash_lines(first) + flash_lines(second));
    }
}

/// Renders all pending flash messages, given their contents, into a single
/// newline-separated HTML string.
pub fn render_flash_messages(messages: &Vec<String>) -> (r: String)
    ensures
        r@ == flash_lines(messages@),
{
    let mut html = String::new();
    let mut i: usize = 0;
    while i < messages.len()
        invariant
            i <= messages@.len(),
            html@ == flash_lines(messages@.take(i as int)),
        decreases messages@.len() - i,
    {
        let ghost before = messages@.take(i as int);
        html.append(messages[i].as_str());
        html.append("\n");
        i = i + 1;
        assert(messages@.take(i as int).drop_last() =~= before);
    }
    assert(messages@.take(i as int) =~= messages@);
    html
}

} // verus!
