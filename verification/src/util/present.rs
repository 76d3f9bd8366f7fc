//! Presence of optional settings, and settings that exclude one another.

use vstd::prelude::*;
use vstd::string::StringExecFns;

verus! {

/// A setting that is either given or left out.
pub trait IsPresent {
    /// Whether the setting is given.
    spec fn present(&self) -> bool;

    /// Whether the setting is given.
    fn is_present(&self) -> (r: bool)
        ensures
            r == self.present(),
    ;
}

impl<T> IsPresent for Option<T> {
    open spec fn present(&self) -> bool {
        self is Some
    }

    fn is_present(&self) -> (r: bool) {
        self.is_some()
    }
}

/// A flag is present when it is set.
impl IsPresent for bool {
    open spec fn present(&self) -> bool {
        *self
    }

    fn is_present(&self) -> (r: bool) {
        *self
    }
}

/// The message for a setting `name` given together with something that
/// excludes it.
pub open spec fn conflict_message(name: Seq<char>, conflict_with: Seq<char>) -> Seq<char> {
    "`"@ + name + "` cannot be used with "@ + conflict_with
}

/// Builds [`conflict_message`].
pub fn conflict(name: &str, conflict_with: &str) -> (r: String)
    ensures
        r@ == conflict_message(name@, conflict_with@),
{
    let mut message = String::from_str("`");
    message.append(name);
    message.append("` cannot be used with ");
    message.append(conflict_with);
    message
}

/// What [`ensure_not_present`] returns for a setting that is present or not.
pub open spec fn not_present(present: bool, name: Seq<char>, conflict_with: Seq<char>) -> Result<
    (),
    Seq<char>,
> {
    if present {
        Err(conflict_message(name, conflict_with))
    } else {
        Ok(())
    }
}

/// Fails, naming both sides, when the setting `p` called `name` is given
/// although `conflict_with` excludes it.
pub fn ensure_not_present<P: IsPresent>(p: &P, name: &str, conflict_with: &str) -> (r: Result<
    (),
    String,
>)
    ensures
        r is Err <==> p.present(),
        r matches Err(message) ==> message@ == conflict_message(name@, conflict_with@),
{
    if p.is_present() {
        Err(conflict(name, conflict_with))
    } else {
        Ok(())
    }
}

} // verus!
