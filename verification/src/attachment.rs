//! The attachment store's rules: what an embedded payload decodes to and
//! where it is kept. Writing the file is left to the caller.

use crate::codec::{base64_decoding, decode_standard};
use vstd::prelude::*;
use vstd::slice::slice_subrange;
use vstd::string::StringSliceAdditionalSpecFns;

verus! {

/// The byte that parts the metadata of a payload from its data.
pub const COMMA: u8 = 0x2c;

/// Why an attachment was not stored.
#[derive(Clone, Copy, Debug, PartialEq, Eq, Structural)]
pub enum AttachmentError {
    /// The payload has no comma, or what follows its first comma is not
    /// base64.
    InvalidEncoding,
    /// The file system refused the write.
    Io,
}

/// A file to write: the path below the working directory and the bytes.
#[derive(Clone, Debug, PartialEq, Eq)]
pub struct StoreRequest {
    pub path: String,
    pub bytes: Vec<u8>,
}

/// The mathematical value of a [`StoreRequest`].
pub struct StoreRequestView {
    pub path: Seq<char>,
    pub bytes: Seq<u8>,
}

impl View for StoreRequest {
    type V = StoreRequestView;

    open spec fn view(&self) -> StoreRequestView {
        StoreRequestView { path: self.path@, bytes: self.bytes@ }
    }
}

/// The root that every attachment is kept under.
pub open spec fn spec_uploads_root() -> Seq<char> {
    "uploads/"@
}

/// The path of an attachment: the root, then the reference as the client
/// gave it.
pub open spec fn spec_storage_path(reference: Seq<char>) -> Seq<char> {
    spec_uploads_root() + reference
}

/// `at` is the place of the first comma in `envelope`.
pub open spec fn is_first_comma(envelope: Seq<u8>, at: int) -> bool {
    &&& 0 <= at < envelope.len()
    &&& envelope[at] == COMMA
    &&& forall|j: int| 0 <= j < at ==> envelope[j] != COMMA
}

/// The envelope holds a comma.
pub open spec fn has_comma(envelope: Seq<u8>) -> bool {
    exists|at: int| is_first_comma(envelope, at)
}

/// The data of a payload: all that follows its first comma. A payload
/// without a comma has none.
pub open spec fn payload_data(envelope: Seq<u8>) -> Option<Seq<u8>> {
    if has_comma(envelope) {
        let at = choose|at: int| is_first_comma(envelope, at);
        Some(envelope.skip(at + 1))
    } else {
        None
    }
}

/// What the store does with decoded bytes, or with the news that there are
/// none.
pub open spec fn request_for(decoded: Option<Seq<u8>>, reference: Seq<char>) -> Result<
    StoreRequestView,
    AttachmentError,
> {
    match decoded {
        Some(bytes) => Ok(StoreRequestView { path: spec_storage_path(reference), bytes }),
        None => Err(AttachmentError::InvalidEncoding),
    }
}

/// The bytes that an envelope carries, given what its data decodes to.
pub open spec fn carried_bytes(envelope: Seq<u8>) -> Option<Seq<u8>> {
    match payload_data(envelope) {
        Some(data) => base64_decoding(data),
        None => None,
    }
}

/// What the store does with a payload and a reference.
pub open spec fn prepared(envelope: Seq<u8>, reference: Seq<char>) -> Result<
    StoreRequestView,
    AttachmentError,
> {
    request_for(carried_bytes(envelope), reference)
}

/// That a preparation came to the given outcome.
pub open spec fn same_request(r: Result<StoreRequest, AttachmentError>, expected: Result<
    StoreRequestView,
    AttachmentError,
>) -> bool {
    match r {
        Ok(request) => expected == Ok::<StoreRequestView, AttachmentError>(request@),
        Err(e) => expected == Err::<StoreRequestView, AttachmentError>(e),
    }
}

/// There is at most one first comma.
pub proof fn lemma_first_comma_unique(envelope: Seq<u8>, a: int, b: int)
    requires
        is_first_comma(envelope, a),
        is_first_comma(envelope, b),
    ensures
        a == b,
{
}

pub fn uploads_root() -> (root: &'static str)
    ensures
        root@ == spec_uploads_root(),
{
    "uploads/"
}

/// The path of an attachment. The reference is used as it is: one that
/// climbs out of the root with `..` is not refused.
pub fn storage_path(reference: &str) -> (path: String)
    ensures
        path@ == spec_storage_path(reference@),
{
    String::from_str(uploads_root()).concat(reference)
}

/// The place of the first comma, if there is a comma.
pub fn find_comma(envelope: &[u8]) -> (found: Option<usize>)
    ensures
        match found {
            Some(at) => is_first_comma(envelope@, at as int),
            None => !has_comma(envelope@),
        },
{
    let mut i: usize = 0;
    while i < envelope.len()
        invariant
            i <= envelope@.len(),
            forall|j: int| 0 <= j < i ==> envelope@[j] != COMMA,
        decreases envelope@.len() - i,
    {
        if envelope[i] == COMMA {
            return Some(i);
        }
        i += 1;
    }
    None
}

/// The data of a payload: all that follows its first comma.
pub fn split_payload(envelope: &[u8]) -> (data: Option<&[u8]>)
    ensures
        match data {
            Some(bytes) => payload_data(envelope@) == Some(bytes@),
            None => payload_data(envelope@) is None,
        },
{
    match find_comma(envelope) {
        None => None,
        Some(at) => {
            let end = envelope.len();
            proof {
                let chosen = choose|c: int| is_first_comma(envelope@, c);
                lemma_first_comma_unique(envelope@, at as int, chosen);
                assert(at < end);
            }
            Some(slice_subrange(envelope, at + 1, end))
        },
    }
}

/// The file to write for decoded bytes, or the refusal where the payload
/// gave none.
pub fn request_from(decoded: Option<Vec<u8>>, reference: &str) -> (r: Result<
    StoreRequest,
    AttachmentError,
>)
    ensures
        match decoded {
            Some(bytes) => same_request(r, request_for(Some(bytes@), reference@)),
            None => same_request(r, request_for(None, reference@)),
        },
{
    match decoded {
        Some(bytes) => Ok(StoreRequest { path: storage_path(reference), bytes }),
        None => Err(AttachmentError::InvalidEncoding),
    }
}

/// The bytes that a payload carries: the base64 decoding of what follows
/// its first comma.
pub fn decode_payload(encoded_payload: &str) -> (bytes: Option<Vec<u8>>)
    ensures
        match bytes {
            Some(b) => carried_bytes(encoded_payload.spec_bytes()) == Some(b@),
            None => carried_bytes(encoded_payload.spec_bytes()) is None,
        },
{
    match split_payload(encoded_payload.as_bytes()) {
        None => None,
        Some(data) => match decode_standard(data) {
            Ok(bytes) => Some(bytes),
            Err(_) => None,
        },
    }
}

/// What to write for a payload and a reference. A payload without a comma,
/// or whose data is not base64, is refused as
/// [`AttachmentError::InvalidEncoding`] and nothing is to be written;
/// otherwise the file at the storage path is to hold the decoded bytes.
pub fn prepare(encoded_payload: &str, relative_path: &str) -> (r: Result<
    StoreRequest,
    AttachmentError,
>)
    ensures
        same_request(r, prepared(encoded_payload.spec_bytes(), relative_path@)),
{
    request_from(decode_payload(encoded_payload), relative_path)
}

/// What storing comes to, once the caller has tried to write what was
/// prepared: a refusal stays what it was and nothing was written; a write
/// that the file system refused is [`AttachmentError::Io`].
pub fn store_outcome(refusal: Option<AttachmentError>, written: bool) -> (r: Result<
    (),
    AttachmentError,
>)
    ensures
        r == match refusal {
            Some(e) => Err::<(), AttachmentError>(e),
            None => if written {
                Ok::<(), AttachmentError>(())
            } else {
                Err::<(), AttachmentError>(AttachmentError::Io)
            },
        },
{
    match refusal {
        Some(e) => Err(e),
        None => if written {
            Ok(())
        } else {
            Err(AttachmentError::Io)
        },
    }
}

} // verus!
