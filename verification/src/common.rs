//! The notification method selector and its textual form.

use vstd::prelude::*;
use vstd::string::StringExecFns;

verus! {

/// The closed set of delivery methods a user may ask for. `Default` is a
/// sentinel meaning "defer to the configured default method"; it must be
/// resolved before a channel is built.
#[derive(Debug, Clone, Copy, PartialEq, Eq, Structural)]
pub enum NotifyMethod {
    Default,
    Email,
    Beep,
    Desktop,
    Echo,
}

/// The error returned when a string names no known notify method; it carries
/// the offending string.
#[derive(Debug, Clone)]
pub struct ParseMethodError(pub String);

/// The method a string denotes, or `None` when it denotes none.
pub open spec fn method_of(s: Seq<char>) -> Option<NotifyMethod> {
    if s == "default"@ {
        Some(NotifyMethod::Default)
    } else if s == "email"@ {
        Some(NotifyMethod::Email)
    } else if s == "beep"@ {
        Some(NotifyMethod::Beep)
    } else if s == "desktop"@ {
        Some(NotifyMethod::Desktop)
    } else if s == "echo"@ {
        Some(NotifyMethod::Echo)
    } else {
        None
    }
}

/// Character-for-character equality of two string slices.
fn str_is(s: &str, t: &str) -> (r: bool)
    ensures
        r == (s@ == t@),
{
    let a: String = s.to_owned();
    let b: String = t.to_owned();
    a == b
}

impl ParseMethodError {
    /// A human-readable account of the failure, naming the rejected string.
    pub fn message(&self) -> (r: String)
        ensures
            r@ == self.0@ + " does not match any default or custom notify command"@,
    {
        let mut text = self.0.clone();
        text.append(" does not match any default or custom notify command");
        text
    }
}

impl NotifyMethod {
    /// The display name of the method.
    pub fn name(&self) -> (r: String)
        ensures
            self is Default ==> r@ == "Default"@,
            self is Email ==> r@ == "Email"@,
            self is Beep ==> r@ == "Beep"@,
            self is Desktop ==> r@ == "Desktop"@,
            self is Echo ==> r@ == "Echo"@,
    {
        match self {
            NotifyMethod::Default => "Default".to_owned(),
            NotifyMethod::Email => "Email".to_owned(),
            NotifyMethod::Beep => "Beep".to_owned(),
            NotifyMethod::Desktop => "Desktop".to_owned(),
            NotifyMethod::Echo => "Echo".to_owned(),
        }
    }

    /// Parses the lower-case name of a method; every other string is
    /// rejected with a `ParseMethodError` carrying it.
    pub fn from_str(s: &str) -> (r: Result<NotifyMethod, ParseMethodError>)
        ensures
            method_of(s@) matches Some(m) ==> r == Ok::<NotifyMethod, ParseMethodError>(m),
            method_of(s@) is None ==> (r matches Err(e) && e.0@ == s@),
    {
        if str_is(s, "default") {
            Ok(NotifyMethod::Default)
        } else if str_is(s, "email") {
            Ok(NotifyMethod::Email)
        } else if str_is(s, "beep") {
            Ok(NotifyMethod::Beep)
        } else if str_is(s, "desktop") {
            Ok(NotifyMethod::Desktop)
        } else if str_is(s, "echo") {
            Ok(NotifyMethod::Echo)
        } else {
            Err(ParseMethodError(s.to_owned()))
        }
    }
}

} // verus!
