use crate::error::RecordingError;
use vstd::prelude::*;

verus! {

/// The device that a capture opens.
#[derive(Debug, Clone, Copy, PartialEq, Eq, Structural)]
pub enum DeviceChoice {
    /// The platform's default input device.
    Default,
    /// The input device at this position of the enumeration.
    Index(usize),
}

/// Whether a requested device name asks for the default input device.
pub open spec fn is_default_request(requested: Seq<char>) -> bool {
    requested == "default"@
}

/// Whether an enumerated device name (absent when the platform could not
/// report it) is exactly `requested`.
pub open spec fn name_matches(name: Option<String>, requested: Seq<char>) -> bool {
    name matches Some(n) && n@ == requested
}

/// Whether `e` is `DeviceNotFound` carrying the requested name.
pub open spec fn not_found_for(e: RecordingError, requested: Seq<char>) -> bool {
    e matches RecordingError::DeviceNotFound(n) && n@ == requested
}

/// Whether the requested name asks for the default input device.
pub fn wants_default_device(requested: &String) -> (r: bool)
    ensures
        r == is_default_request(requested@),
{
    let default_name = String::from_str("default");
    requested.eq(&default_name)
}

/// The position of the first enumerated input device named exactly
/// `requested`, or `DeviceNotFound` with that name when none is.
pub fn find_device(requested: &String, names: &Vec<Option<String>>) -> (r: Result<
    usize,
    RecordingError,
>)
    ensures
        r is Err <==> forall|j: int| 0 <= j < names@.len() ==> !name_matches(names@[j], requested@),
        r matches Ok(i) ==> i < names@.len() && name_matches(names@[i as int], requested@) && forall|
            j: int,
        | 0 <= j < i ==> !name_matches(names@[j], requested@),
        r matches Err(e) ==> not_found_for(e, requested@),
{
    let mut i: usize = 0;
    while i < names.len()
        invariant
            i <= names@.len(),
            forall|j: int| 0 <= j < i ==> !name_matches(names@[j], requested@),
        decreases names@.len() - i,
    {
        match &names[i] {
            Some(n) => {
                if n.eq(requested) {
                    return Ok(i);
                }
            },
            None => {},
        }
        i = i + 1;
    }
    Err(RecordingError::DeviceNotFound(requested.clone()))
}

/// Resolves the capture device: the default one when `requested` is
/// `"default"` (or `NoDefaultDevice` when `has_default` says there is none),
/// otherwise the first enumerated device named exactly `requested` (or
/// `DeviceNotFound`).
pub fn resolve_device(requested: &String, has_default: bool, names: &Vec<Option<String>>) -> (r:
    Result<DeviceChoice, RecordingError>)
    ensures
        is_default_request(requested@) ==> (has_default ==> r == Ok::<
            DeviceChoice,
            RecordingError,
        >(DeviceChoice::Default)) && (!has_default ==> r == Err::<DeviceChoice, RecordingError>(
            RecordingError::NoDefaultDevice,
        )),
        !is_default_request(requested@) ==> {
            &&& r is Err <==> forall|j: int|
                0 <= j < names@.len() ==> !name_matches(names@[j], requested@)
            &&& r matches Ok(c) ==> c matches DeviceChoice::Index(i) && i < names@.len()
                && name_matches(names@[i as int], requested@) && forall|j: int|
                0 <= j < i ==> !name_matches(names@[j], requested@)
            &&& r matches Err(e) ==> not_found_for(e, requested@)
        },
{
    if wants_default_device(requested) {
        if has_default {
            Ok(DeviceChoice::Default)
        } else {
            Err(RecordingError::NoDefaultDevice)
        }
    } else {
        match find_device(requested, names) {
            Ok(i) => Ok(DeviceChoice::Index(i)),
            Err(e) => Err(e),
        }
    }
}

} // verus!
