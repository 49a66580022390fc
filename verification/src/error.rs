//! The error that a write over the quota is answered with.
use opendal::{Error, ErrorKind};
use vstd::prelude::*;
use vstd::string::StringExecFns;

use crate::text::to_decimal;

verus! {

/// Declares [`opendal::ErrorKind`], a plain enumeration.
#[verifier::external_type_specification]
pub struct ExErrorKind(ErrorKind);

/// Declares [`opendal::Error`], whose fields stay hidden: see [`error_view`].
#[verifier::external_type_specification]
#[verifier::external_body]
pub struct ExError(Error);

/// What an [`opendal::Error`] tells its reader.
#[verifier::ext_equal]
pub struct ErrorView {
    /// `Error::kind`.
    pub kind: ErrorKind,
    /// `Error::message`.
    pub message: Seq<char>,
    /// `Error::is_permanent`: whether a retry is pointless.
    pub permanent: bool,
    /// The key and value pairs attached to it, oldest first.
    pub context: Seq<(Seq<char>, Seq<char>)>,
}

/// What `error` holds.
pub uninterp spec fn error_view(error: Error) -> ErrorView;

/// Calls [`opendal::Error::new`]: a permanent error with the given kind and
/// message and with no context attached.
#[verifier::external_body]
fn error_new(kind: ErrorKind, message: String) -> (error: Error)
    ensures
        error_view(error) == (ErrorView {
            kind,
            message: message@,
            permanent: true,
            context: Seq::empty(),
        }),
{
    Error::new(kind, message)
}

/// Calls [`opendal::Error::with_context`]: `error` with one more pair at the
/// end of its context, and otherwise as it was.
#[verifier::external_body]
fn error_with_context(error: Error, key: &'static str, value: String) -> (extended: Error)
    ensures
        error_view(extended) == (ErrorView {
            context: error_view(error).context.push((key@, value@)),
            ..error_view(error)
        }),
{
    error.with_context(key, value)
}

/// The sentence that reports a write of `requested` bytes over the quota `id`.
pub open spec fn exceeded_message(id: Seq<char>, used: u64, requested: u64, limit: u64) -> Seq<
    char,
> {
    "write quota exceeded for '"@ + id + "': "@
        + crate::text::decimal(used as nat) + " bytes used, "@
        + crate::text::decimal(requested as nat) + " byte write requested, "@
        + crate::text::decimal(limit as nat) + " byte limit"@
}

/// The error for a write of `requested` bytes over the quota `id`: a
/// rate-limit error that names the quota, its limit, what is used of it and
/// what was asked for.
pub open spec fn exceeded_error(id: Seq<char>, used: u64, requested: u64, limit: u64) -> ErrorView {
    ErrorView {
        kind: ErrorKind::RateLimited,
        message: exceeded_message(id, used, requested, limit),
        permanent: true,
        context: seq![
            ("quota_id"@, id),
            ("quota_limit"@, crate::text::decimal(limit as nat)),
            ("quota_used"@, crate::text::decimal(used as nat)),
            ("quota_requested"@, crate::text::decimal(requested as nat)),
        ],
    }
}

/// Builds the error for a write of `requested` bytes over the quota `id`.
pub fn quota_exceeded(id: &str, used: u64, requested: u64, limit: u64) -> (error: Error)
    ensures
        error_view(error) == exceeded_error(id@, used, requested, limit),
{
    let mut message: String = String::from_str("write quota exceeded for '");
    message.append(id);
    message.append("': ");
    message.append(to_decimal(used).as_str());
    message.append(" bytes used, ");
    message.append(to_decimal(requested).as_str());
    message.append(" byte write requested, ");
    message.append(to_decimal(limit).as_str());
    message.append(" byte limit");
    let error: Error = error_new(ErrorKind::RateLimited, message);
    let error: Error = error_with_context(error, "quota_id", id.to_owned());
    let error: Error = error_with_context(error, "quota_limit", to_decimal(limit));
    let error: Error = error_with_context(error, "quota_used", to_decimal(used));
    let error: Error = error_with_context(error, "quota_requested", to_decimal(requested));
    assert(error_view(error) =~= exceeded_error(id@, used, requested, limit));
    error
}

} // verus!
