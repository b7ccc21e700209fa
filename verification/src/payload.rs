use vstd::prelude::*;
use crate::errors::MissingFileError;
use crate::mapping::ColumnMapping;

verus! {

/// An uploaded file's contents: an owned byte sequence paired with the
/// display name the operator saw. Replaced wholesale on re-selection,
/// cleared on explicit clear or after a successful submission.
#[derive(Clone, PartialEq, Eq, Debug)]
pub struct FileBuffer {
    pub name: String,
    pub bytes: Vec<u8>,
}

/// The operator-supplied identity of the vendor being onboarded. The
/// password travels in plaintext inside the payload: the channel is assumed
/// to be local and trusted.
#[derive(Clone, PartialEq, Eq, Debug)]
pub struct VendorIdentity {
    pub vendor_name: String,
    pub password: String,
    pub vendor_key: Option<String>,
}

/// A snapshot combining the vendor identity, the column mapping, and the raw
/// file bytes; constructed atomically at submit time from the current values
/// of its sources and immutable once constructed.
pub struct SubmissionPayload {
    pub vendor_name: String,
    pub password: String,
    pub vendor_key: Option<String>,
    pub mapping: ColumnMapping,
    pub file_bytes: Vec<u8>,
}

/// Assembles the submission payload from the current identity, mapping
/// snapshot and file buffer.
///
/// Fails with `MissingFileError` exactly when no file buffer is present;
/// that is the only precondition enforced before transmission — neither a
/// complete mapping nor non-empty identity fields are required. On success
/// the payload carries the file's content byte for byte.
pub fn build(identity: &VendorIdentity, mapping: ColumnMapping, file: Option<&FileBuffer>) -> (r:
    Result<SubmissionPayload, MissingFileError>)
    requires
        mapping.wf(),
    ensures
        r is Err <==> file is None,
        r matches Ok(p) ==> {
            &&& p.vendor_name@ == identity.vendor_name@
            &&& p.password@ == identity.password@
            &&& p.vendor_key.deep_view() == identity.vendor_key.deep_view()
            &&& p.mapping@ == mapping@
            &&& p.mapping.wf()
            &&& p.file_bytes@ == file->0.bytes@
        },
{
    match file {
        None => Err(MissingFileError),
        Some(f) => {
            let file_bytes = copy_bytes(&f.bytes);
            let vendor_key = match &identity.vendor_key {
                Some(k) => Some(k.clone()),
                None => None,
            };
            Ok(
                SubmissionPayload {
                    vendor_name: identity.vendor_name.clone(),
                    password: identity.password.clone(),
                    vendor_key,
                    mapping,
                    file_bytes,
                },
            )
        },
    }
}

fn copy_bytes(v: &Vec<u8>) -> (r: Vec<u8>)
    ensures
        r@ == v@,
{
    let mut r: Vec<u8> = Vec::new();
    let mut i: usize = 0;
    let end = v.len();
    while i < end
        invariant
            i <= end,
            end == v@.len(),
            r@ =~= v@.take(i as int),
        decreases end - i,
    {
        r.push(v[i]);
        proof {
            assert(r@ =~= v@.take(i as int + 1));
        }
        i = i + 1;
    }
    proof {
        assert(v@.take(end as int) =~= v@);
    }
    r
}

} // verus!
