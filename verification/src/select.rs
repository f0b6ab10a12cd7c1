use vstd::prelude::*;

use crate::scan::Candidate;
use crate::text::{trim_seq, trim_str};

verus! {

/// What the selector decides to do with a candidate set.
pub enum SelectorAction {
    /// Exactly one candidate exists: its name is chosen outright, and no
    /// interactive picker subprocess is ever involved.
    Chosen(String),
    /// Zero or several candidates exist: the interactive picker must run,
    /// fed this newline-joined block of candidate names on its input stream.
    RunPicker(String),
}

/// The newline-joined block of candidate names, in candidate-set order, with
/// no trailing newline.
pub open spec fn picker_input(cs: Seq<Candidate>) -> Seq<char>
    decreases cs.len(),
{
    if cs.len() == 0 {
        Seq::empty()
    } else if cs.len() == 1 {
        cs[0].name@
    } else {
        picker_input(cs.drop_last()) + seq!['\n'] + cs.last().name@
    }
}

/// Builds the block of text handed to the interactive picker: every
/// candidate's name as one line, in candidate-set order.
pub fn build_picker_input(cs: &Vec<Candidate>) -> (r: String)
    ensures
        r@ == picker_input(cs@),
{
    let mut r: String = String::new();
    let n: usize = cs.len();
    let mut i: usize = 0;
    while i < n
        invariant
            n == cs@.len(),
            0 <= i <= n,
            r@ == picker_input(cs@.subrange(0, i as int)),
        decreases n - i,
    {
        if i > 0 {
            r.append("\n");
        }
        r.append(cs[i].name.as_str());
        proof {
            reveal_strlit("\n");
            let sub = cs@.subrange(0, i as int + 1);
            assert(sub.drop_last() =~= cs@.subrange(0, i as int));
            assert(sub.last() == cs@[i as int]);
            assert(r@ =~= picker_input(sub));
        }
        i += 1;
    }
    proof {
        assert(cs@.subrange(0, n as int) =~= cs@);
    }
    r
}

/// The selector's decision. With exactly one candidate its name is returned
/// at once and no subprocess is spawned; otherwise the whole candidate set —
/// empty sets included — goes to the interactive picker as one newline-joined
/// block.
pub fn selection_plan(cs: &Vec<Candidate>) -> (a: SelectorAction)
    ensures
        cs@.len() == 1 ==> (a matches SelectorAction::Chosen(name) && name@ == cs@[0].name@),
        cs@.len() != 1 ==> (a matches SelectorAction::RunPicker(input) && input@ == picker_input(
            cs@,
        )),
{
    if cs.len() == 1 {
        SelectorAction::Chosen(cs[0].name.clone())
    } else {
        SelectorAction::RunPicker(build_picker_input(cs))
    }
}

/// Reads the picker's raw output. Trimmed of surrounding whitespace it is the
/// chosen name, taken verbatim and unvalidated; output that is empty after
/// trimming means the user aborted, and no choice is returned at all.
pub fn interpret_picker_output(out: &str) -> (r: Option<String>)
    ensures
        r is None <==> trim_seq(out@).len() == 0,
        r matches Some(chosen) ==> chosen@ == trim_seq(out@),
{
    let t: String = trim_str(out);
    if t.as_str().unicode_len() == 0 {
        None
    } else {
        Some(t)
    }
}

} // verus!
