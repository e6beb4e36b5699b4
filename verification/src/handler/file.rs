//! Sending a file to a recipient and retrieving it.

use crate::db::{has_file, resolve_grant_spec, SavedShare, ShareStore};
use crate::dtos::{expiration_instant, FileUploadDtos, RetrieveFileDto, Violation};
use crate::error::{CipherError, Fault, KeyError, ResolveError, StoreError};
use crate::models::{File, SharedLink, User};
use crate::trusted::rsa_key_pair;
use crate::trusted::uuid_parsed;
use crate::utils::decrypt::{decrypt_file_spec, decrypt_payload};
use crate::utils::encrypt::{encrypt_file, sealed_for};
use crate::utils::keys::{fetch_private, fetch_private_spec, fetch_public, fetch_public_spec};
use vstd::prelude::*;

verus! {

/// What a part of an upload is taken for, by its name.
#[derive(Clone, Copy, Debug, PartialEq, Eq, Structural)]
pub enum FieldKind {
    File,
    RecipientEmail,
    Password,
    ExpirationDate,
    Ignored,
}

/// An upload as its parts have filled it so far.
#[derive(Debug)]
pub struct UploadRequest {
    pub file_name: String,
    pub file_data: Vec<u8>,
    pub file_size: i64,
    pub form: FileUploadDtos,
}

/// A payload sealed for its recipient, ready to be stored with its grant.
#[derive(Debug)]
pub struct SealedUpload {
    pub user_id: u128,
    pub file_name: String,
    pub file_size: i64,
    pub recipient_user_id: u128,
    pub expiration_date: i64,
    pub encrypted_aes_key: Vec<u8>,
    pub encrypted_file: Vec<u8>,
    pub iv: Vec<u8>,
}

/// Why an upload was refused.
#[derive(Debug)]
pub enum UploadError {
    /// The form breaks these rules.
    Validation(Vec<Violation>),
    /// No user has the recipient's address.
    RecipientNotFound,
    /// The recipient has no public key yet.
    RecipientNotReady,
    /// The recipient's stored public key could not be read.
    Key(KeyError),
    /// The payload could not be sealed.
    Cipher(CipherError),
}

impl UploadError {
    /// A form that breaks a rule and a recipient who is missing or has no
    /// key are the caller's to mend; a key that cannot be read and a cipher
    /// that fails are the service's.
    pub open spec fn spec_fault(&self) -> Fault {
        match self {
            UploadError::Validation(_) => Fault::Caller,
            UploadError::RecipientNotFound => Fault::Caller,
            UploadError::RecipientNotReady => Fault::Caller,
            UploadError::Key(_) => Fault::Service,
            UploadError::Cipher(_) => Fault::Service,
        }
    }

    #[verifier::when_used_as_spec(spec_fault)]
    pub fn fault(&self) -> (r: Fault)
        ensures
            r == self.spec_fault(),
    {
        match self {
            UploadError::Validation(_) => Fault::Caller,
            UploadError::RecipientNotFound => Fault::Caller,
            UploadError::RecipientNotReady => Fault::Caller,
            UploadError::Key(_) => Fault::Service,
            UploadError::Cipher(_) => Fault::Service,
        }
    }
}

fn str_eq(a: &str, b: &str) -> (r: bool)
    ensures
        r == (a@ == b@),
{
    a.to_owned() == b.to_owned()
}

/// What the part named `name` is taken for: the file under `fileUpload`, the
/// three fields of the form under their names, and nothing under any other
/// name.
pub open spec fn spec_field_kind(name: Seq<char>) -> FieldKind {
    if name == "fileUpload"@ {
        FieldKind::File
    } else if name == "recipient_email"@ {
        FieldKind::RecipientEmail
    } else if name == "password"@ {
        FieldKind::Password
    } else if name == "expiration_date"@ {
        FieldKind::ExpirationDate
    } else {
        FieldKind::Ignored
    }
}

pub fn field_kind(name: &str) -> (r: FieldKind)
    ensures
        r == spec_field_kind(name@),
{
    if str_eq(name, "fileUpload") {
        FieldKind::File
    } else if str_eq(name, "recipient_email") {
        FieldKind::RecipientEmail
    } else if str_eq(name, "password") {
        FieldKind::Password
    } else if str_eq(name, "expiration_date") {
        FieldKind::ExpirationDate
    } else {
        FieldKind::Ignored
    }
}

impl UploadRequest {
    /// The upload before any part has arrived: no file and an empty form.
    pub fn new() -> (r: UploadRequest)
        ensures
            r.file_name@ == Seq::<char>::empty(),
            r.file_data@ == Seq::<u8>::empty(),
            r.file_size == 0,
            r.form.recipient_email@ == Seq::<char>::empty(),
            r.form.password@ == Seq::<char>::empty(),
            r.form.expiration_date@ == Seq::<char>::empty(),
    {
        UploadRequest {
            file_name: String::new(),
            file_data: Vec::new(),
            file_size: 0,
            form: FileUploadDtos {
                recipient_email: String::new(),
                password: String::new(),
                expiration_date: String::new(),
            },
        }
    }

    /// Takes the file part: its bytes, their number, and its name, or
    /// `unknow_file` where it came without one. A later file part replaces
    /// an earlier one.
    pub fn accept_file(&mut self, file_name: Option<String>, data: Vec<u8>)
        requires
            data@.len() <= i64::MAX,
        ensures
            final(self).file_name@ == match file_name {
                Some(name) => name@,
                None => "unknow_file"@,
            },
            final(self).file_data@ == data@,
            final(self).file_size == data@.len(),
            final(self).form == old(self).form,
    {
        self.file_name =
        match file_name {
            Some(name) => name,
            None => "unknow_file".to_owned(),
        };
        self.file_size = data.len() as i64;
        self.file_data = data;
    }

    /// Takes a text part of the kind `kind`: it replaces the field of the
    /// form that the kind names, and is dropped where the kind names none.
    pub fn accept_text(&mut self, kind: FieldKind, value: String)
        ensures
            final(self).file_name == old(self).file_name,
            final(self).file_data == old(self).file_data,
            final(self).file_size == old(self).file_size,
            final(self).form.recipient_email@ == if kind == FieldKind::RecipientEmail {
                value@
            } else {
                old(self).form.recipient_email@
            },
            final(self).form.password@ == if kind == FieldKind::Password {
                value@
            } else {
                old(self).form.password@
            },
            final(self).form.expiration_date@ == if kind == FieldKind::ExpirationDate {
                value@
            } else {
                old(self).form.expiration_date@
            },
    {
        match kind {
            FieldKind::RecipientEmail => {
                self.form.recipient_email = value;
            },
            FieldKind::Password => {
                self.form.password = value;
            },
            FieldKind::ExpirationDate => {
                self.form.expiration_date = value;
            },
            _ => {},
        }
    }
}

/// The upload passes every check that comes before the payload is sealed:
/// the form breaks no rule at `now`, the recipient exists, and the
/// recipient's public key reads back as the key text `public_pem`.
pub open spec fn upload_admitted(
    form: FileUploadDtos,
    recipient: Option<&User>,
    now: i64,
    public_pem: Seq<char>,
) -> bool {
    &&& form.violations(now).len() == 0
    &&& recipient matches Some(user)
    &&& fetch_public_spec(user.public_key) == Ok::<Seq<char>, KeyError>(public_pem)
}

/// What `upload_file` may give for an upload. The checks come in this
/// order, and the first that fails decides the error: the rules of the form
/// at `now`; that the recipient exists; that the recipient has a public key;
/// that the stored key can be read. An upload that passes them is sealed for
/// that key, unless the cipher fails; a key that belongs to a key pair never
/// fails to wrap.
pub open spec fn upload_outcome(
    sender: u128,
    recipient: Option<&User>,
    request: UploadRequest,
    now: i64,
    outcome: Result<SealedUpload, UploadError>,
) -> bool {
    match outcome {
        Ok(sealed) => {
            &&& recipient matches Some(user)
            &&& exists|public_pem: Seq<char>|
                {
                    &&& #[trigger] upload_admitted(request.form, recipient, now, public_pem)
                    &&& sealed_for(
                        request.file_data@,
                        public_pem,
                        sealed.encrypted_aes_key@,
                        sealed.encrypted_file@,
                        sealed.iv@,
                    )
                }
            &&& sealed.user_id == sender
            &&& sealed.recipient_user_id == user.id
            &&& sealed.file_name@ == request.file_name@
            &&& sealed.file_size == request.file_size
            &&& sealed.expiration_date == expiration_instant(request.form.expiration_date@)
            &&& sealed.expiration_date > now
        },
        Err(UploadError::Validation(found)) => {
            &&& found@ == request.form.violations(now)
            &&& found@.len() > 0
        },
        Err(UploadError::RecipientNotFound) => {
            &&& request.form.violations(now).len() == 0
            &&& recipient is None
        },
        Err(UploadError::RecipientNotReady) => {
            &&& request.form.violations(now).len() == 0
            &&& recipient matches Some(user)
            &&& user.public_key is None
        },
        Err(UploadError::Key(e)) => {
            &&& request.form.violations(now).len() == 0
            &&& recipient matches Some(user)
            &&& user.public_key is Some
            &&& fetch_public_spec(user.public_key) == Err::<Seq<char>, KeyError>(e)
        },
        Err(UploadError::Cipher(e)) => {
            &&& exists|public_pem: Seq<char>| #[trigger]
                upload_admitted(request.form, recipient, now, public_pem) && (e
                    == CipherError::KeyWrap ==> forall|private_pem: Seq<char>|
                    !rsa_key_pair(public_pem, private_pem))
            &&& e == CipherError::CipherSetup || e == CipherError::KeyWrap
        },
    }
}

/// Seals an upload of `sender` for `recipient`, the user found under the
/// address that the form names, if any. What comes back holds all that the
/// store needs but the hash of the access password.
pub fn upload_file(
    sender: u128,
    recipient: Option<&User>,
    request: UploadRequest,
    now: i64,
) -> (r: Result<SealedUpload, UploadError>)
    requires
        request.file_data@.len() + 16 <= isize::MAX,
    ensures
        upload_outcome(sender, recipient, request, now, r),
{
    let expiration_date = match request.form.expiration_checked(now) {
        Ok(instant) => instant,
        Err(found) => {
            return Err(UploadError::Validation(found));
        },
    };
    let user = match recipient {
        Some(user) => user,
        None => {
            return Err(UploadError::RecipientNotFound);
        },
    };
    let public_key = match fetch_public(user) {
        Ok(key) => key,
        Err(KeyError::NotFound) => {
            return Err(UploadError::RecipientNotReady);
        },
        Err(e) => {
            return Err(UploadError::Key(e));
        },
    };
    assert(upload_admitted(request.form, recipient, now, public_key.pem@));
    let UploadRequest { file_name, file_data, file_size, form } = request;
    match encrypt_file(file_data, &public_key) {
        Ok((encrypted_aes_key, encrypted_file, iv)) => Ok(
            SealedUpload {
                user_id: sender,
                file_name,
                file_size,
                recipient_user_id: user.id,
                expiration_date,
                encrypted_aes_key,
                encrypted_file,
                iv,
            },
        ),
        Err(e) => Err(UploadError::Cipher(e)),
    }
}

/// Why a file was not sent.
#[derive(Debug)]
pub enum SendError {
    /// The upload was refused.
    Upload(UploadError),
    /// The store did not take the grant.
    Store(StoreError),
}

/// The payload record that the store makes of a sealed upload.
pub open spec fn stored_file(sealed: SealedUpload, file_id: u128, now: i64) -> File {
    File {
        id: file_id,
        user_id: Some(sealed.user_id),
        file_name: sealed.file_name,
        file_size: sealed.file_size,
        encrypted_aes_key: sealed.encrypted_aes_key,
        encrypted_file: sealed.encrypted_file,
        iv: sealed.iv,
        created_at: Some(now),
    }
}

/// The grant record that the store makes of a sealed upload.
pub open spec fn stored_link(
    sealed: SealedUpload,
    saved: SavedShare,
    password_hash: String,
    now: i64,
) -> SharedLink {
    SharedLink {
        id: saved.shared_id,
        file_id: Some(saved.file_id),
        recipient_user_id: Some(sealed.recipient_user_id),
        password: password_hash,
        expiration_date: Some(sealed.expiration_date),
        created_at: Some(now),
    }
}

/// Sends a file: seals the upload for its recipient and stores the payload
/// together with its grant, under the hash of the access password.
///
/// The store changes only on success, and then by exactly one payload and
/// one grant with fresh identifiers.
pub fn send(
    store: &mut ShareStore,
    sender: u128,
    recipient: Option<&User>,
    request: UploadRequest,
    password_hash: String,
    now: i64,
) -> (r: Result<SavedShare, SendError>)
    requires
        old(store).wf(),
        request.file_data@.len() + 16 <= isize::MAX,
    ensures
        final(store).wf(),
        match r {
            Ok(saved) => exists|sealed: SealedUpload|
                {
                    &&& #[trigger] upload_outcome(sender, recipient, request, now, Ok(sealed))
                    &&& saved.shared_id != saved.file_id
                    &&& !has_file(old(store).files(), saved.file_id)
                    &&& forall|i: int|
                        0 <= i < old(store).links().len() ==> (#[trigger] old(store).links()[i]).id
                            != saved.shared_id
                    &&& final(store).files() == old(store).files().push(
                        stored_file(sealed, saved.file_id, now),
                    )
                    &&& final(store).links() == old(store).links().push(
                        stored_link(sealed, saved, password_hash, now),
                    )
                },
            Err(e) => {
                &&& final(store).files() == old(store).files()
                &&& final(store).links() == old(store).links()
                &&& match e {
                    SendError::Upload(refusal) => upload_outcome(
                        sender,
                        recipient,
                        request,
                        now,
                        Err(refusal),
                    ),
                    SendError::Store(refusal) => refusal == StoreError::Full && old(store).is_full()
                        && exists|sealed: SealedUpload| #[trigger]
                        upload_outcome(sender, recipient, request, now, Ok(sealed)),
                }
            },
        },
{
    let sealed = match upload_file(sender, recipient, request, now) {
        Ok(sealed) => sealed,
        Err(refusal) => {
            return Err(SendError::Upload(refusal));
        },
    };
    let ghost witness = sealed;
    let SealedUpload {
        user_id,
        file_name,
        file_size,
        recipient_user_id,
        expiration_date,
        encrypted_aes_key,
        encrypted_file,
        iv,
    } = sealed;
    match store.save_encrypted_file(
        user_id,
        file_name,
        file_size,
        recipient_user_id,
        password_hash,
        expiration_date,
        encrypted_aes_key,
        encrypted_file,
        iv,
        now,
    ) {
        Ok(saved) => {
            proof {
                assert(upload_outcome(sender, recipient, request, now, Ok(witness)));
            }
            Ok(saved)
        },
        Err(refusal) => {
            proof {
                assert(upload_outcome(sender, recipient, request, now, Ok(witness)));
            }
            Err(SendError::Store(refusal))
        },
    }
}

/// A retrieved file as it is handed to the caller.
#[derive(Debug)]
pub struct Download {
    pub file_name: String,
    pub content_disposition: String,
    pub data: Vec<u8>,
}

/// Why a file was not retrieved.
#[derive(Debug)]
pub enum RetrieveError {
    /// The request breaks these rules.
    Validation(Vec<Violation>),
    /// The request names no share.
    InvalidSharedId,
    /// The grant was not resolved.
    Resolve(ResolveError),
    /// The caller's private key could not be read.
    Key(KeyError),
    /// The payload could not be opened.
    Cipher(CipherError),
}

impl RetrieveError {
    /// A request that breaks a rule or names no share, and a grant that is
    /// not resolved, are the caller's to mend; a key that cannot be read and
    /// a payload that does not open are the service's.
    pub open spec fn spec_fault(&self) -> Fault {
        match self {
            RetrieveError::Validation(_) => Fault::Caller,
            RetrieveError::InvalidSharedId => Fault::Caller,
            RetrieveError::Resolve(_) => Fault::Caller,
            RetrieveError::Key(_) => Fault::Service,
            RetrieveError::Cipher(_) => Fault::Service,
        }
    }

    #[verifier::when_used_as_spec(spec_fault)]
    pub fn fault(&self) -> (r: Fault)
        ensures
            r == self.spec_fault(),
    {
        match self {
            RetrieveError::Validation(_) => Fault::Caller,
            RetrieveError::InvalidSharedId => Fault::Caller,
            RetrieveError::Resolve(_) => Fault::Caller,
            RetrieveError::Key(_) => Fault::Service,
            RetrieveError::Cipher(_) => Fault::Service,
        }
    }
}

/// The share that a retrieval request names: the request must break no
/// rule, and its identifier must read as a UUID.
pub fn retrieval_target(body: &RetrieveFileDto) -> (r: Result<u128, RetrieveError>)
    ensures
        match r {
            Ok(shared_id) => body.violations().len() == 0 && uuid_parsed(body.shared_id@) == Some(
                shared_id,
            ),
            Err(RetrieveError::Validation(found)) => found@ == body.violations() && found@.len()
                > 0,
            Err(RetrieveError::InvalidSharedId) => body.violations().len() == 0 && uuid_parsed(
                body.shared_id@,
            ) is None,
            Err(_) => false,
        },
{
    match body.validate() {
        Ok(()) => {},
        Err(found) => {
            return Err(RetrieveError::Validation(found));
        },
    }
    match body.shared_uuid() {
        Some(shared_id) => Ok(shared_id),
        None => Err(RetrieveError::InvalidSharedId),
    }
}

/// What a grant read from the store allows `caller` at `now`: `NotFound`
/// where there is no grant, it is not the one asked for, it is another
/// recipient's, or it has expired; `AccessDenied` where the password does
/// not match; `PayloadMissing` where the grant names no payload; else the
/// identifier of its payload.
pub open spec fn authorize_retrieval_spec(
    shared: Option<&SharedLink>,
    shared_id: u128,
    caller: u128,
    now: i64,
    password_matches: bool,
) -> Result<u128, ResolveError> {
    match shared {
        Some(link) => if !link.spec_resolves(shared_id, caller, now) {
            Err(ResolveError::NotFound)
        } else if !password_matches {
            Err(ResolveError::AccessDenied)
        } else {
            match link.file_id {
                Some(file_id) => Ok(file_id),
                None => Err(ResolveError::PayloadMissing),
            }
        },
        None => Err(ResolveError::NotFound),
    }
}

/// Decides whether `caller` may have the payload of the grant `shared_id`,
/// from the grant as the store gave it and the outcome of comparing the
/// supplied password with the grant's hash.
pub fn authorize_retrieval(
    shared: Option<&SharedLink>,
    shared_id: u128,
    caller: u128,
    now: i64,
    password_matches: bool,
) -> (r: Result<u128, ResolveError>)
    ensures
        r == authorize_retrieval_spec(shared, shared_id, caller, now, password_matches),
{
    let link = match shared {
        Some(link) => link,
        None => {
            return Err(ResolveError::NotFound);
        },
    };
    if !link.resolves(shared_id, caller, now) {
        return Err(ResolveError::NotFound);
    }
    if !password_matches {
        return Err(ResolveError::AccessDenied);
    }
    match link.file_id {
        Some(file_id) => Ok(file_id),
        None => Err(ResolveError::PayloadMissing),
    }
}

/// The value of the `Content-Disposition` header for a file of this name.
pub open spec fn content_disposition_spec(file_name: Seq<char>) -> Seq<char> {
    "attachment; filename=\""@ + file_name + "\""@
}

pub fn content_disposition(file_name: &str) -> (r: String)
    ensures
        r@ == content_disposition_spec(file_name@),
{
    let mut value = "attachment; filename=\"".to_owned();
    value.append(file_name);
    value.append("\"");
    value
}

/// Opens the payload of an authorized retrieval with the caller's private
/// key, read afresh from trusted storage: `entry` is the text stored for the
/// caller, if any.
///
/// `PayloadMissing` where the store had no such payload; the key error where
/// the private key is absent or malformed; the cipher's error where the
/// payload does not open; else the file under the name it was sent with.
pub fn retrieve_file(file: Option<&File>, entry: Option<String>) -> (r: Result<
    Download,
    RetrieveError,
>)
    ensures
        match r {
            Ok(download) => {
                &&& file matches Some(payload)
                &&& fetch_private_spec(entry) matches Ok(private_pem)
                &&& decrypt_file_spec(
                    payload.encrypted_aes_key@,
                    payload.encrypted_file@,
                    payload.iv@,
                    private_pem,
                ) == Ok::<Seq<u8>, CipherError>(download.data@)
                &&& download.file_name@ == payload.file_name@
                &&& download.content_disposition@ == content_disposition_spec(payload.file_name@)
            },
            Err(RetrieveError::Resolve(e)) => file is None && e == ResolveError::PayloadMissing,
            Err(RetrieveError::Key(e)) => file is Some && fetch_private_spec(entry) == Err::<
                Seq<char>,
                KeyError,
            >(e),
            Err(RetrieveError::Cipher(e)) => {
                &&& file matches Some(payload)
                &&& fetch_private_spec(entry) matches Ok(private_pem)
                &&& decrypt_file_spec(
                    payload.encrypted_aes_key@,
                    payload.encrypted_file@,
                    payload.iv@,
                    private_pem,
                ) == Err::<Seq<u8>, CipherError>(e)
            },
            Err(_) => false,
        },
{
    let payload = match file {
        Some(payload) => payload,
        None => {
            return Err(RetrieveError::Resolve(ResolveError::PayloadMissing));
        },
    };
    let private_key = match fetch_private(entry) {
        Ok(key) => key,
        Err(e) => {
            return Err(RetrieveError::Key(e));
        },
    };
    match decrypt_payload(
        payload.encrypted_aes_key.as_slice(),
        payload.encrypted_file.as_slice(),
        payload.iv.as_slice(),
        &private_key,
    ) {
        Ok(data) => Ok(
            Download {
                file_name: payload.file_name.clone(),
                content_disposition: content_disposition(payload.file_name.as_str()),
                data,
            },
        ),
        Err(e) => Err(RetrieveError::Cipher(e)),
    }
}

/// What `receive` gives: the error of resolving the grant, where it does
/// not resolve, else what opening its payload gives.
pub open spec fn receive_outcome(
    files: Seq<File>,
    links: Seq<SharedLink>,
    caller: u128,
    shared_id: u128,
    now: i64,
    password_matches: bool,
    entry: Option<String>,
    outcome: Result<Download, RetrieveError>,
) -> bool {
    match resolve_grant_spec(files, links, shared_id, caller, now, password_matches) {
        Err(e) => outcome matches Err(RetrieveError::Resolve(refusal)) && refusal == e,
        Ok(payload) => match fetch_private_spec(entry) {
            Err(e) => outcome matches Err(RetrieveError::Key(refusal)) && refusal == e,
            Ok(private_pem) => match decrypt_file_spec(
                payload.encrypted_aes_key@,
                payload.encrypted_file@,
                payload.iv@,
                private_pem,
            ) {
                Err(e) => outcome matches Err(RetrieveError::Cipher(refusal)) && refusal == e,
                Ok(data) => {
                    &&& outcome matches Ok(download)
                    &&& download.data@ == data
                    &&& download.file_name@ == payload.file_name@
                    &&& download.content_disposition@ == content_disposition_spec(
                        payload.file_name@,
                    )
                },
            },
        },
    }
}

/// Retrieves a file: resolves the grant `shared_id` for `caller` at `now`
/// and opens its payload with the caller's private key. `password_matches`
/// is the outcome of comparing the supplied password with the grant's hash,
/// and `entry` the text that trusted storage holds for the caller, if any.
/// The store is left as it was: a grant can be resolved again until it
/// expires.
pub fn receive(
    store: &ShareStore,
    caller: u128,
    shared_id: u128,
    now: i64,
    password_matches: bool,
    entry: Option<String>,
) -> (r: Result<Download, RetrieveError>)
    requires
        store.wf(),
    ensures
        receive_outcome(
            store.files(),
            store.links(),
            caller,
            shared_id,
            now,
            password_matches,
            entry,
            r,
        ),
{
    match store.resolve_grant(shared_id, caller, now, password_matches) {
        Ok(payload) => retrieve_file(Some(payload), entry),
        Err(e) => Err(RetrieveError::Resolve(e)),
    }
}

} // verus!
