use vstd::prelude::*;
use crate::errors::{ChannelError, MissingFileError, ReadError, TransmissionResult};
use crate::fields::{CanonicalField, FIELD_COUNT};
use crate::mapping::{spec_set, all_unmapped, MappingStore};
use crate::notify::{spec_show, spec_expire, NotificationSink, NotifyState};
use crate::payload::{build, VendorIdentity};
use crate::reader::{spec_begin, spec_clear, spec_complete, FileState, FileTracker};
use crate::wire::{encode_payload, payload_wire};

verus! {

/// Ghost state of one upload session.
pub struct SessionState {
    pub vendor_name: Seq<char>,
    pub password: Seq<char>,
    pub vendor_key: Option<Seq<char>>,
    pub selection: FileState,
    pub mapping: Seq<Seq<char>>,
    pub notify: NotifyState,
}

/// The operator-facing text for a failed transmission.
pub open spec fn spec_error_text(e: ChannelError) -> Seq<char> {
    match e {
        ChannelError::Connect => "could not reach the backend endpoint"@,
        ChannelError::Serialize => "could not encode the submission"@,
        ChannelError::Write => "the submission could not be written"@,
        ChannelError::Timeout => "the backend did not respond in time"@,
    }
}

pub fn error_text(e: ChannelError) -> (s: &'static str)
    ensures
        s@ == spec_error_text(e),
{
    match e {
        ChannelError::Connect => "could not reach the backend endpoint",
        ChannelError::Serialize => "could not encode the submission",
        ChannelError::Write => "the submission could not be written",
        ChannelError::Timeout => "the backend did not respond in time",
    }
}

/// One upload session: the operator-owned state between discrete actions.
/// The host performs the file reads, the expiry timers and the channel
/// send, and feeds their outcomes back in; every decision in between is
/// made here.
pub struct UploadSession {
    identity: VendorIdentity,
    selection: FileTracker,
    mappings: MappingStore,
    notifier: NotificationSink,
}

impl View for UploadSession {
    type V = SessionState;

    closed spec fn view(&self) -> SessionState {
        SessionState {
            vendor_name: self.identity.vendor_name@,
            password: self.identity.password@,
            vendor_key: match self.identity.vendor_key {
                Some(k) => Some(k@),
                None => None,
            },
            selection: self.selection@,
            mapping: self.mappings@,
            notify: self.notifier@,
        }
    }
}

impl UploadSession {
    /// A session always maps every canonical field (possibly to the empty,
    /// unmapped name).
    pub open spec fn wf(self) -> bool {
        self@.mapping.len() == FIELD_COUNT
    }

    /// A fresh session: empty identity, no file, all fields unmapped,
    /// nothing notified.
    pub fn new() -> (s: Self)
        ensures
            s.wf(),
            s@.vendor_name == Seq::<char>::empty(),
            s@.password == Seq::<char>::empty(),
            s@.vendor_key is None,
            s@.selection.file is None,
            s@.selection.headers == Seq::<Seq<char>>::empty(),
            s@.selection.generation == 0,
            s@.mapping == all_unmapped(),
            s@.notify.message is None,
            s@.notify.shown == 0,
    {
        UploadSession {
            identity: VendorIdentity {
                vendor_name: String::new(),
                password: String::new(),
                vendor_key: None,
            },
            selection: FileTracker::new(),
            mappings: MappingStore::new(),
            notifier: NotificationSink::new(),
        }
    }

    /// Replaces the vendor name.
    pub fn set_vendor_name(&mut self, name: String)
        ensures
            final(self)@ == (SessionState { vendor_name: name@, ..old(self)@ }),
    {
        self.identity.vendor_name = name;
    }

    /// Replaces the password.
    pub fn set_password(&mut self, password: String)
        ensures
            final(self)@ == (SessionState { password: password@, ..old(self)@ }),
    {
        self.identity.password = password;
    }

    /// Replaces the optional vendor-specific key.
    pub fn set_vendor_key(&mut self, key: Option<String>)
        ensures
            final(self)@ == (SessionState {
                vendor_key: match key {
                    Some(k) => Some(k@),
                    None => None,
                },
                ..old(self)@
            }),
    {
        self.identity.vendor_key = key;
    }

    /// Records the operator's column choice for one canonical field.
    pub fn set_mapping(&mut self, field: CanonicalField, column: String)
        requires
            old(self).wf(),
        ensures
            final(self).wf(),
            final(self)@ == (SessionState {
                mapping: spec_set(old(self)@.mapping, field, column@),
                ..old(self)@
            }),
    {
        self.mappings.set(field, column);
    }

    /// Starts a new file selection, superseding any earlier one, and
    /// returns the token its read completion must present.
    pub fn begin_file_select(&mut self) -> (token: u64)
        requires
            old(self)@.selection.generation < u64::MAX,
        ensures
            final(self)@ == (SessionState {
                selection: spec_begin(old(self)@.selection).0,
                ..old(self)@
            }),
            token as nat == spec_begin(old(self)@.selection).1,
    {
        self.selection.begin_select()
    }

    /// Applies the outcome of the file read started under `token`; stale
    /// completions of superseded selections are discarded.
    pub fn file_read_complete(&mut self, token: u64, name: String, read: Result<Vec<u8>, ReadError>)
        ensures
            final(self)@ == (SessionState {
                selection: spec_complete(
                    old(self)@.selection,
                    token as nat,
                    name@,
                    match read {
                        Ok(b) => Some(b@),
                        Err(_) => None,
                    },
                ),
                ..old(self)@
            }),
    {
        self.selection.complete_read(token, name, read);
    }

    /// Clears the selected file and its headers.
    pub fn clear_file(&mut self)
        requires
            old(self)@.selection.generation < u64::MAX,
        ensures
            final(self)@ == (SessionState {
                selection: spec_clear(old(self)@.selection),
                ..old(self)@
            }),
    {
        self.selection.clear();
    }

    /// The column headers of the currently loaded file.
    pub fn column_headers(&self) -> (h: &Vec<String>)
        ensures
            h.deep_view() == self@.selection.headers,
    {
        self.selection.headers()
    }

    /// The currently visible notification, if any.
    pub fn notification(&self) -> (m: Option<&String>)
        ensures
            match m {
                Some(s) => self@.notify.message == Some(s@),
                None => self@.notify.message is None,
            },
    {
        self.notifier.current()
    }

    /// Applies a notification expiry timer carrying `token`.
    pub fn expire_notification(&mut self, token: u64)
        ensures
            final(self)@ == (SessionState {
                notify: spec_expire(old(self)@.notify, token as nat),
                ..old(self)@
            }),
    {
        self.notifier.expire(token);
    }

    /// Decides a submission attempt from the current state. With no file
    /// loaded it fails with `MissingFileError` before any channel work is
    /// done, and the host must not open the channel. With a file loaded it
    /// snapshots the identity, the mapping and the file bytes, and returns
    /// the one wire message to transmit. No completeness check is made on
    /// the mapping or the identity: the store is deliberately permissive.
    pub fn submit(&self) -> (r: Result<Vec<u8>, MissingFileError>)
        requires
            self.wf(),
        ensures
            r is Err <==> self@.selection.file is None,
            r matches Ok(bytes) ==> bytes@ == payload_wire(
                self@.vendor_name,
                self@.password,
                self@.vendor_key,
                self@.mapping,
                (self@.selection.file->0).1,
            ),
    {
        let snapshot = self.mappings.snapshot();
        let payload = match build(&self.identity, snapshot, self.selection.current_file()) {
            Ok(p) => p,
            Err(e) => {
                return Err(e);
            },
        };
        Ok(encode_payload(&payload))
    }

    /// Applies the outcome of one transmission attempt and returns the
    /// expiry token for the notification it raises. On success the
    /// acknowledgement is shown and the session is made ready for the next
    /// vendor: identity emptied, file cleared. The mappings are kept, as
    /// the operator's selections outlive one upload. On failure the state
    /// is kept so the operator can retry, and the failure's text is shown.
    pub fn complete_submission(&mut self, result: TransmissionResult) -> (token: u64)
        requires
            old(self)@.notify.shown < u64::MAX,
            old(self)@.selection.generation < u64::MAX,
        ensures
            match result {
                TransmissionResult::Success(ack) => final(self)@ == (SessionState {
                    vendor_name: Seq::<char>::empty(),
                    password: Seq::<char>::empty(),
                    vendor_key: None,
                    selection: spec_clear(old(self)@.selection),
                    notify: spec_show(old(self)@.notify, ack@).0,
                    ..old(self)@
                }) && token as nat == spec_show(old(self)@.notify, ack@).1,
                TransmissionResult::Failure(e) => final(self)@ == (SessionState {
                    notify: spec_show(old(self)@.notify, spec_error_text(e)).0,
                    ..old(self)@
                }) && token as nat == spec_show(old(self)@.notify, spec_error_text(e)).1,
            },
    {
        match result {
            TransmissionResult::Success(ack) => {
                self.identity.vendor_name = String::new();
                self.identity.password = String::new();
                self.identity.vendor_key = None;
                self.selection.clear();
                self.notifier.show(ack)
            },
            TransmissionResult::Failure(e) => {
                let message = String::from_str(error_text(e));
                self.notifier.show(message)
            },
        }
    }
}

} // verus!
