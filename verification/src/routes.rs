//! The two routes that are answered without the store or the upstream
//! provider.

use vstd::prelude::*;

verus! {

/// The status of a successful answer.
pub const STATUS_OK: u16 = 200;

/// The text that the root route answers with.
pub fn index() -> (text: &'static str)
    ensures
        text@ == "Hello World"@,
{
    "Hello World"
}

/// The status and the body that the health route answers with, whatever the
/// state of the store and of the upstream provider: success, and nothing.
pub fn health() -> (answer: (u16, &'static str))
    ensures
        answer.0 == STATUS_OK,
        answer.1@ == Seq::<char>::empty(),
{
    proof {
        reveal_strlit("");
        assert(""@ =~= Seq::<char>::empty());
    }
    (STATUS_OK, "")
}

} // verus!
