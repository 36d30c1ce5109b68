//! Small operations on text.
use vstd::prelude::*;
use vstd::string::StringExecFns;

verus! {

/// Adds text at the end of a sink.
pub fn push_text(sink: &mut String, text: &str)
    ensures
        final(sink)@ == old(sink)@ + text@,
{
    sink.append(text);
}

/// Whether two texts are the same.
pub fn same_text(a: &str, b: &str) -> (res: bool)
    ensures
        res == (a@ == b@),
{
    a.to_owned() == b.to_owned()
}

/// Two texts, one after the other.
pub fn joined(a: &str, b: &str) -> (res: String)
    ensures
        res@ == a@ + b@,
{
    a.to_owned().concat(b)
}

} // verus!
