//! Validators: each turns a raw request string into a value that is known to
//! satisfy the rule of its field, or reports the field as invalid.
//!
//! A validated value can only be made by its `parse` function, so holding one
//! is proof that the rule was checked.

use vstd::prelude::*;
use vstd::string::*;
use crate::error::{Field, ServerError};

verus! {

/// The most characters an app name may have.
pub const NAME_MAX_CHARS: usize = 256;

/// The most characters an app description may have.
pub const DESC_MAX_CHARS: usize = 1024;

/// The most characters an identifier may have.
pub const ID_MAX_CHARS: usize = 64;

/// An app name is not empty and has at most 256 characters.
pub open spec fn is_app_name(s: Seq<char>) -> bool {
    0 < s.len() <= NAME_MAX_CHARS
}

/// An app description has at most 1024 characters; it may be empty.
pub open spec fn is_app_desc(s: Seq<char>) -> bool {
    s.len() <= DESC_MAX_CHARS
}

/// The characters an identifier is made of: ASCII letters and digits, the
/// hyphen and the underscore.
pub open spec fn is_id_char(c: char) -> bool {
    ||| '0' <= c <= '9'
    ||| 'a' <= c <= 'z'
    ||| 'A' <= c <= 'Z'
    ||| c == '-'
    ||| c == '_'
}

/// An identifier is not empty, has at most 64 characters, and holds only
/// identifier characters.
pub open spec fn is_identifier(s: Seq<char>) -> bool {
    &&& 0 < s.len() <= ID_MAX_CHARS
    &&& forall|i: int| 0 <= i < s.len() ==> is_id_char(#[trigger] s[i])
}

fn id_byte(b: u8) -> (r: bool)
    ensures
        r == is_id_char(b as char),
{
    (b >= 48 && b <= 57) || (b >= 97 && b <= 122) || (b >= 65 && b <= 90) || b == 45 || b == 95
}

/// Decides whether `s` has the shape of an identifier.
pub fn check_identifier(s: &str) -> (r: bool)
    ensures
        r == is_identifier(s@),
{
    if !s.is_ascii() {
        return false;
    }
    let n = s.unicode_len();
    if n == 0 || n > ID_MAX_CHARS {
        return false;
    }
    let mut i: usize = 0;
    while i < n
        invariant
            i <= n,
            n == s@.len(),
            s.is_ascii(),
            forall|j: int| 0 <= j < i ==> is_id_char(#[trigger] s@[j]),
        decreases n - i,
    {
        let b = s.get_ascii(i);
        if !id_byte(b) {
            return false;
        }
        i += 1;
    }
    true
}

/// A validated app name.
#[derive(Debug)]
pub struct AppName {
    value: String,
}

impl View for AppName {
    type V = Seq<char>;

    closed spec fn view(&self) -> Seq<char> {
        self.value@
    }
}

impl AppName {
    #[verifier::type_invariant]
    spec fn well_formed(self) -> bool {
        is_app_name(self.value@)
    }

    /// Accepts `s` exactly when it is an app name, and keeps it unchanged.
    pub fn parse(s: String) -> (r: Result<AppName, ServerError>)
        ensures
            is_app_name(s@) ==> (r matches Ok(v) && v@ == s@),
            !is_app_name(s@) ==> r == Err::<AppName, ServerError>(
                ServerError::InvalidParameter(Field::Name),
            ),
    {
        let n = s.as_str().unicode_len();
        if n == 0 || n > NAME_MAX_CHARS {
            Err(ServerError::InvalidParameter(Field::Name))
        } else {
            Ok(AppName { value: s })
        }
    }

    /// The validated text.
    pub fn as_str(&self) -> (s: &str)
        ensures
            s@ == self@,
            is_app_name(s@),
    {
        proof {
            use_type_invariant(self);
        }
        self.value.as_str()
    }

    /// Gives up the wrapper and returns the text.
    pub fn into_inner(self) -> (s: String)
        ensures
            s@ == self@,
            is_app_name(s@),
    {
        proof {
            use_type_invariant(&self);
        }
        self.value
    }
}

/// A validated app description.
#[derive(Debug)]
pub struct AppDesc {
    value: String,
}

impl View for AppDesc {
    type V = Seq<char>;

    closed spec fn view(&self) -> Seq<char> {
        self.value@
    }
}

impl AppDesc {
    #[verifier::type_invariant]
    spec fn well_formed(self) -> bool {
        is_app_desc(self.value@)
    }

    /// Accepts `s` exactly when it is an app description, and keeps it
    /// unchanged.
    pub fn parse(s: String) -> (r: Result<AppDesc, ServerError>)
        ensures
            is_app_desc(s@) ==> (r matches Ok(v) && v@ == s@),
            !is_app_desc(s@) ==> r == Err::<AppDesc, ServerError>(
                ServerError::InvalidParameter(Field::Desc),
            ),
    {
        let n = s.as_str().unicode_len();
        if n > DESC_MAX_CHARS {
            Err(ServerError::InvalidParameter(Field::Desc))
        } else {
            Ok(AppDesc { value: s })
        }
    }

    /// The validated text.
    pub fn as_str(&self) -> (s: &str)
        ensures
            s@ == self@,
            is_app_desc(s@),
    {
        proof {
            use_type_invariant(self);
        }
        self.value.as_str()
    }

    /// Gives up the wrapper and returns the text.
    pub fn into_inner(self) -> (s: String)
        ensures
            s@ == self@,
            is_app_desc(s@),
    {
        proof {
            use_type_invariant(&self);
        }
        self.value
    }
}

/// A validated app identifier.
#[derive(Debug)]
pub struct AppId {
    value: String,
}

impl View for AppId {
    type V = Seq<char>;

    closed spec fn view(&self) -> Seq<char> {
        self.value@
    }
}

impl AppId {
    #[verifier::type_invariant]
    spec fn well_formed(self) -> bool {
        is_identifier(self.value@)
    }

    /// Accepts `s` exactly when it has the shape of an identifier, and keeps
    /// it unchanged.
    pub fn parse(s: String) -> (r: Result<AppId, ServerError>)
        ensures
            is_identifier(s@) ==> (r matches Ok(v) && v@ == s@),
            !is_identifier(s@) ==> r == Err::<AppId, ServerError>(
                ServerError::InvalidParameter(Field::AppId),
            ),
    {
        if check_identifier(s.as_str()) {
            Ok(AppId { value: s })
        } else {
            Err(ServerError::InvalidParameter(Field::AppId))
        }
    }

    /// The validated text.
    pub fn as_str(&self) -> (s: &str)
        ensures
            s@ == self@,
            is_identifier(s@),
    {
        proof {
            use_type_invariant(self);
        }
        self.value.as_str()
    }

    /// Gives up the wrapper and returns the text.
    pub fn into_inner(self) -> (s: String)
        ensures
            s@ == self@,
            is_identifier(s@),
    {
        proof {
            use_type_invariant(&self);
        }
        self.value
    }
}

/// A validated workspace identifier.
#[derive(Debug)]
pub struct WorkspaceId {
    value: String,
}

impl View for WorkspaceId {
    type V = Seq<char>;

    closed spec fn view(&self) -> Seq<char> {
        self.value@
    }
}

impl WorkspaceId {
    #[verifier::type_invariant]
    spec fn well_formed(self) -> bool {
        is_identifier(self.value@)
    }

    /// Accepts `s` exactly when it has the shape of an identifier, and keeps
    /// it unchanged.
    pub fn parse(s: String) -> (r: Result<WorkspaceId, ServerError>)
        ensures
            is_identifier(s@) ==> (r matches Ok(v) && v@ == s@),
            !is_identifier(s@) ==> r == Err::<WorkspaceId, ServerError>(
                ServerError::InvalidParameter(Field::WorkspaceId),
            ),
    {
        if check_identifier(s.as_str()) {
            Ok(WorkspaceId { value: s })
        } else {
            Err(ServerError::InvalidParameter(Field::WorkspaceId))
        }
    }

    /// The validated text.
    pub fn as_str(&self) -> (s: &str)
        ensures
            s@ == self@,
            is_identifier(s@),
    {
        proof {
            use_type_invariant(self);
        }
        self.value.as_str()
    }

    /// Gives up the wrapper and returns the text.
    pub fn into_inner(self) -> (s: String)
        ensures
            s@ == self@,
            is_identifier(s@),
    {
        proof {
            use_type_invariant(&self);
        }
        self.value
    }
}

/// A validated user identifier.
#[derive(Debug)]
pub struct UserId {
    value: String,
}

impl View for UserId {
    type V = Seq<char>;

    closed spec fn view(&self) -> Seq<char> {
        self.value@
    }
}

impl UserId {
    #[verifier::type_invariant]
    spec fn well_formed(self) -> bool {
        is_identifier(self.value@)
    }

    /// Accepts `s` exactly when it has the shape of an identifier, and keeps
    /// it unchanged.
    pub fn parse(s: String) -> (r: Result<UserId, ServerError>)
        ensures
            is_identifier(s@) ==> (r matches Ok(v) && v@ == s@),
            !is_identifier(s@) ==> r == Err::<UserId, ServerError>(
                ServerError::InvalidParameter(Field::UserId),
            ),
    {
        if check_identifier(s.as_str()) {
            Ok(UserId { value: s })
        } else {
            Err(ServerError::InvalidParameter(Field::UserId))
        }
    }

    /// The validated text.
    pub fn as_str(&self) -> (s: &str)
        ensures
            s@ == self@,
            is_identifier(s@),
    {
        proof {
            use_type_invariant(self);
        }
        self.value.as_str()
    }

    /// Gives up the wrapper and returns the text.
    pub fn into_inner(self) -> (s: String)
        ensures
            s@ == self@,
            is_identifier(s@),
    {
        proof {
            use_type_invariant(&self);
        }
        self.value
    }
}

} // verus!
