//! Decisions on what the host engine answers: the name behind a reversed
//! hash, and the outcome of a request to create a view.

use vstd::prelude::*;

verus! {

/// Why a hash has no readable name.
#[derive(Clone, Copy, Debug, PartialEq, Eq, Structural)]
pub enum HashToStringError {
    /// The engine returned no string at all.
    GetNull,
    /// The engine does not know the hash.
    Unknown,
}

/// Why a view could not be created.
#[derive(Clone, Copy, Debug, PartialEq, Eq, Structural)]
pub enum CreateViewError {
    NoViewFactory,
    CallbackCallError,
    CreateViewCallbackInvalid,
    CantParseDataToLua,
    GetNullAfterCreate,
    CallbackSetupError,
    InvalidLuaContext,
}

/// The engine's answer to a request to create a view: the new view's URL,
/// or what went wrong.
#[derive(Clone, Debug, PartialEq, Eq)]
pub enum CreateViewResultCpp {
    Success { url: Vec<u8> },
    NoViewFactory,
    CallbackCallError,
    CreateViewCallbackInvalid,
    CantParseDataToLua,
    GetNullAfterCreate,
    CallbackSetupError,
    InvalidLuaContext,
}

/// The text that the engine gives for a hash that it does not know:
/// `<unknown>`.
pub open spec fn unknown_hash_name() -> Seq<u8> {
    seq![60u8, 117u8, 110u8, 107u8, 110u8, 111u8, 119u8, 110u8, 62u8]
}

/// Whether `name` is the engine's text for an unknown hash.
fn is_unknown_hash_name(name: &Vec<u8>) -> (r: bool)
    ensures
        r == (name@ == unknown_hash_name()),
{
    let r = name.len() == 9 && name[0] == 60 && name[1] == 117 && name[2] == 110 && name[3]
        == 107 && name[4] == 110 && name[5] == 111 && name[6] == 119 && name[7] == 110 && name[8]
        == 62;
    proof {
        if r {
            assert(name@ =~= unknown_hash_name());
        }
    }
    r
}

/// The name behind a hash, from what the engine returned when asked to
/// reverse it: `None` when it returned no string.
pub fn reversed_hash_name(reversed: Option<Vec<u8>>) -> (r: Result<Vec<u8>, HashToStringError>)
    ensures
        match reversed {
            None => r == Err::<Vec<u8>, HashToStringError>(HashToStringError::GetNull),
            Some(name) => if name@ == unknown_hash_name() {
                r == Err::<Vec<u8>, HashToStringError>(HashToStringError::Unknown)
            } else {
                r matches Ok(n) && n@ == name@
            },
        },
{
    match reversed {
        None => Err(HashToStringError::GetNull),
        Some(name) => {
            if is_unknown_hash_name(&name) {
                Err(HashToStringError::Unknown)
            } else {
                Ok(name)
            }
        },
    }
}

/// The new view's URL, or the error that matches the engine's answer.
pub fn create_view_outcome(result: CreateViewResultCpp) -> (r: Result<Vec<u8>, CreateViewError>)
    ensures
        match result {
            CreateViewResultCpp::Success { url } => r matches Ok(u) && u@ == url@,
            CreateViewResultCpp::NoViewFactory => r == Err::<Vec<u8>, CreateViewError>(
                CreateViewError::NoViewFactory,
            ),
            CreateViewResultCpp::CallbackCallError => r == Err::<Vec<u8>, CreateViewError>(
                CreateViewError::CallbackCallError,
            ),
            CreateViewResultCpp::CreateViewCallbackInvalid => r == Err::<Vec<u8>, CreateViewError>(
                CreateViewError::CreateViewCallbackInvalid,
            ),
            CreateViewResultCpp::CantParseDataToLua => r == Err::<Vec<u8>, CreateViewError>(
                CreateViewError::CantParseDataToLua,
            ),
            CreateViewResultCpp::GetNullAfterCreate => r == Err::<Vec<u8>, CreateViewError>(
                CreateViewError::GetNullAfterCreate,
            ),
            CreateViewResultCpp::CallbackSetupError => r == Err::<Vec<u8>, CreateViewError>(
                CreateViewError::CallbackSetupError,
            ),
            CreateViewResultCpp::InvalidLuaContext => r == Err::<Vec<u8>, CreateViewError>(
                CreateViewError::InvalidLuaContext,
            ),
        },
{
    match result {
        CreateViewResultCpp::Success { url } => Ok(url),
        CreateViewResultCpp::NoViewFactory => Err(CreateViewError::NoViewFactory),
        CreateViewResultCpp::CallbackCallError => Err(CreateViewError::CallbackCallError),
        CreateViewResultCpp::CreateViewCallbackInvalid => Err(
            CreateViewError::CreateViewCallbackInvalid,
        ),
        CreateViewResultCpp::CantParseDataToLua => Err(CreateViewError::CantParseDataToLua),
        CreateViewResultCpp::GetNullAfterCreate => Err(CreateViewError::GetNullAfterCreate),
        CreateViewResultCpp::CallbackSetupError => Err(CreateViewError::CallbackSetupError),
        CreateViewResultCpp::InvalidLuaContext => Err(CreateViewError::InvalidLuaContext),
    }
}

} // verus!
