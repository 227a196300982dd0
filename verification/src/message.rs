//! The watchfolder message: what is sent for one content record, so that the
//! ingest watcher finds the essence file and its sidecar.

use vstd::prelude::*;
use vstd::string::*;
use crate::catalog::{Batch, BatchRecord, BatchRecordView, BatchView};
use crate::error::{RunError, RunErrorView};
use crate::json::{
    array,
    encode_string,
    json_array,
    json_member,
    json_object,
    json_string_text,
    member,
    object,
    texts,
};
use crate::sidecar::{filename_ext_to_xml, sidecar_name};
use crate::timestamp::Timestamp;

verus! {

/// One file of a message: the essence, or the sidecar that describes it.
#[derive(Clone, Debug, PartialEq, Eq)]
pub struct SipPackage {
    /// The name of the file.
    pub file_name: String,
    /// The directory of the batch, in which the file lies.
    pub file_path: String,
    /// `essence` or `sidecar`.
    pub file_type: String,
    /// The checksum of the file; empty for a sidecar.
    pub md5: String,
    /// When the message was emitted.
    pub timestamp: Timestamp,
}

/// A `SipPackage` with its texts as sequences of characters.
pub struct SipPackageView {
    pub file_name: Seq<char>,
    pub file_path: Seq<char>,
    pub file_type: Seq<char>,
    pub md5: Seq<char>,
    pub timestamp: Timestamp,
}

impl View for SipPackage {
    type V = SipPackageView;

    open spec fn view(&self) -> SipPackageView {
        SipPackageView {
            file_name: self.file_name@,
            file_path: self.file_path@,
            file_type: self.file_type@,
            md5: self.md5@,
            timestamp: self.timestamp,
        }
    }
}

/// The message for one content record.
#[derive(Clone, Debug, PartialEq, Eq)]
pub struct WatchfolderMsg {
    /// The system that the message comes from.
    pub cp_name: String,
    /// The flow that the message is for: the identifier under which the
    /// batch is known outside the catalog.
    pub flow_id: String,
    /// The host on which the files lie.
    pub server: String,
    /// Left empty: the watcher has its own credentials.
    pub username: String,
    /// Left empty, as the user name.
    pub password: String,
    /// When the message was emitted.
    pub timestamp: Timestamp,
    /// The essence and, behind it, its sidecar.
    pub sip_package: Vec<SipPackage>,
}

/// A `WatchfolderMsg` with its texts as sequences of characters.
pub struct WatchfolderMsgView {
    pub cp_name: Seq<char>,
    pub flow_id: Seq<char>,
    pub server: Seq<char>,
    pub username: Seq<char>,
    pub password: Seq<char>,
    pub timestamp: Timestamp,
    pub sip_package: Seq<SipPackageView>,
}

impl View for WatchfolderMsg {
    type V = WatchfolderMsgView;

    open spec fn view(&self) -> WatchfolderMsgView {
        WatchfolderMsgView {
            cp_name: self.cp_name@,
            flow_id: self.flow_id@,
            server: self.server@,
            username: self.username@,
            password: self.password@,
            timestamp: self.timestamp,
            sip_package: Seq::new(self.sip_package@.len(), |i: int| self.sip_package@[i]@),
        }
    }
}

/// The name under which every message gives its source system.
pub open spec fn source_system() -> Seq<char> {
    "CP_NAME:TODO"@
}

/// The word that marks the package of the content file itself.
pub open spec fn essence_type() -> Seq<char> {
    "essence"@
}

/// The word that marks the package of the XML file beside it.
pub open spec fn sidecar_type() -> Seq<char> {
    "sidecar"@
}

/// The package for the content file of `record`: its checksum is the
/// record's.
pub open spec fn essence_package(
    batch: BatchView,
    record: BatchRecordView,
    now: Timestamp,
) -> SipPackageView {
    SipPackageView {
        file_name: record.filename,
        file_path: batch.path,
        file_type: essence_type(),
        md5: record.md5_hash,
        timestamp: now,
    }
}

/// The package for the sidecar named `name`: it lies beside the essence and
/// has no checksum.
pub open spec fn sidecar_package(batch: BatchView, name: Seq<char>, now: Timestamp) -> SipPackageView {
    SipPackageView {
        file_name: name,
        file_path: batch.path,
        file_type: sidecar_type(),
        md5: Seq::empty(),
        timestamp: now,
    }
}

/// The message for `record` of `batch`, emitted at `now`: the essence and
/// then its sidecar, all three times being `now`. There is none where the
/// record's file name gives no sidecar name.
pub open spec fn assembled(batch: BatchView, record: BatchRecordView, now: Timestamp) -> Option<
    WatchfolderMsgView,
> {
    match sidecar_name(record.filename) {
        Some(name) => Some(
            WatchfolderMsgView {
                cp_name: source_system(),
                flow_id: batch.batch_id,
                server: batch.host,
                username: Seq::empty(),
                password: Seq::empty(),
                timestamp: now,
                sip_package: seq![
                    essence_package(batch, record, now),
                    sidecar_package(batch, name, now),
                ],
            },
        ),
        None => None,
    }
}

/// The JSON object for a package: its five fields under their names, in the
/// order of the struct, the time as RFC 3339 text.
pub open spec fn package_json(p: SipPackageView) -> Seq<char> {
    object(
        seq![
            member("file_name"@, json_string_text(p.file_name)),
            member("file_path"@, json_string_text(p.file_path)),
            member("file_type"@, json_string_text(p.file_type)),
            member("md5"@, json_string_text(p.md5)),
            member("timestamp"@, json_string_text(p.timestamp.text())),
        ],
    )
}

/// The JSON objects for the packages `packages`, in order.
pub open spec fn package_texts(packages: Seq<SipPackageView>) -> Seq<Seq<char>> {
    Seq::new(packages.len(), |i: int| package_json(packages[i]))
}

/// The JSON object for a message: its seven fields under their names, in the
/// order of the struct, the packages as an array.
pub open spec fn message_json(m: WatchfolderMsgView) -> Seq<char> {
    object(
        seq![
            member("cp_name"@, json_string_text(m.cp_name)),
            member("flow_id"@, json_string_text(m.flow_id)),
            member("server"@, json_string_text(m.server)),
            member("username"@, json_string_text(m.username)),
            member("password"@, json_string_text(m.password)),
            member("timestamp"@, json_string_text(m.timestamp.text())),
            member("sip_package"@, array(package_texts(m.sip_package))),
        ],
    )
}

/// `m` with `now` for each of its times.
pub open spec fn restamped(m: WatchfolderMsgView, now: Timestamp) -> WatchfolderMsgView {
    WatchfolderMsgView {
        timestamp: now,
        sip_package: Seq::new(
            m.sip_package.len(),
            |i: int| SipPackageView { timestamp: now, ..m.sip_package[i] },
        ),
        ..m
    }
}

fn string_member(name: &str, value: &str) -> (text: String)
    ensures
        text@ == member(name@, json_string_text(value@)),
{
    let encoded = encode_string(value);
    json_member(name, encoded.as_str())
}

fn time_member(name: &str, value: Timestamp) -> (text: String)
    ensures
        text@ == member(name@, json_string_text(value.text())),
{
    let written = value.to_rfc3339();
    string_member(name, written.as_str())
}

impl SipPackage {
    /// The package as a JSON object.
    pub fn to_json(&self) -> (text: String)
        ensures
            text@ == package_json(self@),
    {
        let mut members: Vec<String> = Vec::new();
        members.push(string_member("file_name", self.file_name.as_str()));
        members.push(string_member("file_path", self.file_path.as_str()));
        members.push(string_member("file_type", self.file_type.as_str()));
        members.push(string_member("md5", self.md5.as_str()));
        members.push(time_member("timestamp", self.timestamp));
        assert(texts(members@) == seq![
            member("file_name"@, json_string_text(self@.file_name)),
            member("file_path"@, json_string_text(self@.file_path)),
            member("file_type"@, json_string_text(self@.file_type)),
            member("md5"@, json_string_text(self@.md5)),
            member("timestamp"@, json_string_text(self@.timestamp.text())),
        ]);
        json_object(&members)
    }
}

impl WatchfolderMsg {
    /// The message for `batch_record` of `batch`, emitted at `now`: the
    /// message and both packages carry this one time. A record whose file
    /// name gives no sidecar name has no message.
    pub fn new(batch: &Batch, batch_record: &BatchRecord, now: Timestamp) -> (message: Result<
        WatchfolderMsg,
        RunError,
    >)
        ensures
            match message {
                Ok(m) => assembled(batch@, batch_record@, now) == Some(m@),
                Err(e) => assembled(batch@, batch_record@, now) is None && e@
                    == RunErrorView::DerivationFailure,
            },
            message matches Ok(m) ==> {
                &&& m.flow_id@ == batch.batch_id@
                &&& m.server@ == batch.host@
                &&& m.timestamp == now
                &&& m.sip_package@.len() == 2
                &&& m.sip_package@[0].file_type@ == essence_type()
                &&& m.sip_package@[0].md5@ == batch_record.md5_hash@
                &&& m.sip_package@[1].file_type@ == sidecar_type()
                &&& m.sip_package@[1].md5@.len() == 0
            },
    {
        let sidecar = match filename_ext_to_xml(batch_record.filename.as_str()) {
            Some(name) => name,
            None => {
                return Err(RunError::DerivationFailure);
            },
        };
        let mut sip_package: Vec<SipPackage> = Vec::new();
        sip_package.push(
            SipPackage {
                file_name: batch_record.filename.clone(),
                file_path: batch.path.clone(),
                file_type: String::from_str("essence"),
                md5: batch_record.md5_hash.clone(),
                timestamp: now,
            },
        );
        sip_package.push(
            SipPackage {
                file_name: sidecar,
                file_path: batch.path.clone(),
                file_type: String::from_str("sidecar"),
                md5: String::new(),
                timestamp: now,
            },
        );
        let message = WatchfolderMsg {
            cp_name: String::from_str("CP_NAME:TODO"),
            flow_id: batch.batch_id.clone(),
            server: batch.host.clone(),
            username: String::new(),
            password: String::new(),
            timestamp: now,
            sip_package,
        };
        assert(message@.sip_package == assembled(batch@, batch_record@, now)->0.sip_package);
        Ok(message)
    }

    /// The message as JSON, in the compact form: the fields under their
    /// names, in the order of the struct.
    pub fn to_json(&self) -> (text: String)
        ensures
            text@ == message_json(self@),
    {
        let mut packages: Vec<String> = Vec::new();
        let n = self.sip_package.len();
        let mut i: usize = 0;
        while i < n
            invariant
                i <= n,
                n == self.sip_package@.len(),
                packages@.len() == i,
                texts(packages@) == package_texts(self@.sip_package.take(i as int)),
            decreases n - i,
        {
            let ghost before = packages@;
            let text = self.sip_package[i].to_json();
            packages.push(text);
            proof {
                let done = package_texts(self@.sip_package.take(i as int));
                let next = package_texts(self@.sip_package.take(i + 1));
                assert forall|j: int| 0 <= j < i + 1 implies texts(packages@)[j] == next[j] by {
                    if j < i {
                        assert(texts(before)[j] == done[j]);
                    }
                }
                assert(texts(packages@) == next);
            }
            i = i + 1;
        }
        assert(self@.sip_package.take(n as int) == self@.sip_package);
        let listed = json_array(&packages);
        let mut members: Vec<String> = Vec::new();
        members.push(string_member("cp_name", self.cp_name.as_str()));
        members.push(string_member("flow_id", self.flow_id.as_str()));
        members.push(string_member("server", self.server.as_str()));
        members.push(string_member("username", self.username.as_str()));
        members.push(string_member("password", self.password.as_str()));
        members.push(time_member("timestamp", self.timestamp));
        members.push(json_member("sip_package", listed.as_str()));
        assert(texts(members@) == seq![
            member("cp_name"@, json_string_text(self@.cp_name)),
            member("flow_id"@, json_string_text(self@.flow_id)),
            member("server"@, json_string_text(self@.server)),
            member("username"@, json_string_text(self@.username)),
            member("password"@, json_string_text(self@.password)),
            member("timestamp"@, json_string_text(self@.timestamp.text())),
            member("sip_package"@, array(package_texts(self@.sip_package))),
        ]);
        json_object(&members)
    }
}

/// Every message that is assembled holds two packages, the essence first
/// and the sidecar second; the essence carries the checksum of the record,
/// the sidecar none.
pub proof fn lemma_assembled_packages(batch: BatchView, record: BatchRecordView, now: Timestamp)
    requires
        assembled(batch, record, now) is Some,
    ensures
        ({
            let packages = assembled(batch, record, now)->0.sip_package;
            &&& packages.len() == 2
            &&& packages[0].file_type == essence_type()
            &&& packages[0].file_name == record.filename
            &&& packages[0].md5 == record.md5_hash
            &&& packages[1].file_type == sidecar_type()
            &&& Some(packages[1].file_name) == sidecar_name(record.filename)
            &&& packages[1].md5 == Seq::<char>::empty()
        }),
{
}

/// Every message that is assembled is for the flow of its batch, which is
/// the identifier under which the batch is known outside the catalog; it
/// points to the host of the batch, names no user and no password, and
/// carries the time it was emitted at, as both of its packages do.
pub proof fn lemma_assembled_envelope(batch: BatchView, record: BatchRecordView, now: Timestamp)
    requires
        assembled(batch, record, now) is Some,
    ensures
        ({
            let message = assembled(batch, record, now)->0;
            &&& message.cp_name == source_system()
            &&& message.flow_id == batch.batch_id
            &&& message.server == batch.host
            &&& message.username == Seq::<char>::empty()
            &&& message.password == Seq::<char>::empty()
            &&& message.timestamp == now
            &&& forall|i: int|
                0 <= i < message.sip_package.len() ==> {
                    &&& (#[trigger] message.sip_package[i]).timestamp == now
                    &&& message.sip_package[i].file_path == batch.path
                }
        }),
{
}

/// A message is assembled for the records whose file name gives a sidecar
/// name, and for no others.
pub proof fn lemma_assembled_when_named(batch: BatchView, record: BatchRecordView, now: Timestamp)
    ensures
        assembled(batch, record, now) is Some <==> sidecar_name(record.filename) is Some,
        record.filename.len() == 0 ==> assembled(batch, record, now) is None,
{
    crate::sidecar::lemma_sidecar_shape(record.filename);
}

/// With the clock at a standstill, assembling is repeatable: two messages
/// for one batch and one record that carry the same time are the same
/// message, and so is their JSON.
pub proof fn lemma_assembly_repeatable(
    batch: BatchView,
    record: BatchRecordView,
    first: WatchfolderMsgView,
    second: WatchfolderMsgView,
)
    requires
        assembled(batch, record, first.timestamp) == Some(first),
        assembled(batch, record, second.timestamp) == Some(second),
        first.timestamp == second.timestamp,
    ensures
        first == second,
        message_json(first) == message_json(second),
{
}

/// Two messages for one batch and one record differ in their times only:
/// with the times of both set to one instant, they are the same message, and
/// so is their JSON.
pub proof fn lemma_assembly_differs_in_time_only(
    batch: BatchView,
    record: BatchRecordView,
    earlier: Timestamp,
    later: Timestamp,
    at: Timestamp,
)
    requires
        assembled(batch, record, earlier) is Some,
    ensures
        assembled(batch, record, later) is Some,
        restamped(assembled(batch, record, earlier)->0, at) == restamped(
            assembled(batch, record, later)->0,
            at,
        ),
        restamped(assembled(batch, record, earlier)->0, later) == assembled(batch, record, later)->0,
        message_json(restamped(assembled(batch, record, earlier)->0, at)) == message_json(
            restamped(assembled(batch, record, later)->0, at),
        ),
{
    let a = assembled(batch, record, earlier)->0;
    let b = assembled(batch, record, later)->0;
    assert(restamped(a, at).sip_package =~= restamped(b, at).sip_package);
    assert(restamped(a, later).sip_package =~= b.sip_package);
}

} // verus!
