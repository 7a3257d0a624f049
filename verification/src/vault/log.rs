//! The issuance log: every certificate that was issued and every request that was refused, one
//! entry each. Entries are only ever added.
use vstd::prelude::*;

use crate::clock;
use crate::clock::Timestamp;
use crate::models::IssuanceLogEntry;
use crate::text;

verus! {

/// Whether `entry` records that a certificate was issued.
pub open spec fn records_grant(
    entry: IssuanceLogEntry,
    service_name: Seq<char>,
    machine_id: Seq<char>,
    cert_serial: Seq<char>,
    expires_at: Timestamp,
    now: Timestamp,
) -> bool {
    &&& entry.timestamp == now
    &&& entry.service_name@ == service_name
    &&& entry.machine_id@ == machine_id
    &&& entry.cert_serial@ == cert_serial
    &&& entry.expires_at == expires_at
    &&& entry.granted
    &&& entry.reason is None
}

/// Whether `entry` records that a request was refused. Its expiry is a time without meaning.
pub open spec fn records_rejection(
    entry: IssuanceLogEntry,
    service_name: Seq<char>,
    machine_id: Seq<char>,
    reason: Seq<char>,
    now: Timestamp,
    expires_at: Timestamp,
) -> bool {
    &&& entry.timestamp == now
    &&& entry.service_name@ == service_name
    &&& entry.machine_id@ == machine_id
    &&& entry.cert_serial@ == Seq::<char>::empty()
    &&& entry.expires_at == expires_at
    &&& !entry.granted
    &&& entry.reason matches Some(text) && text@ == reason
}

/// A log file, and the entries that are still to be appended to it.
#[derive(Debug)]
pub struct IssuanceLog {
    path: String,
    pending: Vec<IssuanceLogEntry>,
}

impl IssuanceLog {
    /// The entries that are still to be written, the oldest first.
    pub closed spec fn pending(&self) -> Seq<IssuanceLogEntry> {
        self.pending@
    }

    /// Where the log file is.
    pub closed spec fn file(&self) -> Seq<char> {
        self.path@
    }

    /// The log at `path`.
    pub fn open(path: &str) -> (r: Self)
        ensures
            r.file() == path@,
            r.pending() == Seq::<IssuanceLogEntry>::empty(),
    {
        IssuanceLog { path: path.to_owned(), pending: Vec::new() }
    }

    /// Where the log file is.
    pub fn path(&self) -> (r: &str)
        ensures
            r@ == self.file(),
    {
        self.path.as_str()
    }

    /// Records at `now` that a certificate was issued.
    pub fn record_grant_at(
        &mut self,
        service_name: &str,
        machine_id: &str,
        cert_serial: &str,
        expires_at: Timestamp,
        now: Timestamp,
    )
        ensures
            final(self).file() == old(self).file(),
            final(self).pending().len() == old(self).pending().len() + 1,
            final(self).pending().drop_last() == old(self).pending(),
            records_grant(
                final(self).pending().last(),
                service_name@,
                machine_id@,
                cert_serial@,
                expires_at,
                now,
            ),
    {
        self.pending.push(
            IssuanceLogEntry {
                timestamp: now,
                service_name: service_name.to_owned(),
                machine_id: machine_id.to_owned(),
                cert_serial: cert_serial.to_owned(),
                expires_at,
                granted: true,
                reason: None,
            },
        );
    }

    /// Records that a certificate was issued.
    pub fn record_grant(
        &mut self,
        service_name: &str,
        machine_id: &str,
        cert_serial: &str,
        expires_at: Timestamp,
    )
        ensures
            final(self).file() == old(self).file(),
            final(self).pending().len() == old(self).pending().len() + 1,
            final(self).pending().drop_last() == old(self).pending(),
            exists|now: Timestamp| #[trigger]
                records_grant(
                    final(self).pending().last(),
                    service_name@,
                    machine_id@,
                    cert_serial@,
                    expires_at,
                    now,
                ) && now.wf() && clock::was_shown(now),
    {
        let now: Timestamp = clock::now();
        self.record_grant_at(service_name, machine_id, cert_serial, expires_at, now);
    }

    /// Records at `now` that a request was refused.
    pub fn record_rejection_at(
        &mut self,
        service_name: &str,
        machine_id: &str,
        reason: &str,
        now: Timestamp,
        expires_at: Timestamp,
    )
        ensures
            final(self).file() == old(self).file(),
            final(self).pending().len() == old(self).pending().len() + 1,
            final(self).pending().drop_last() == old(self).pending(),
            records_rejection(
                final(self).pending().last(),
                service_name@,
                machine_id@,
                reason@,
                now,
                expires_at,
            ),
    {
        self.pending.push(
            IssuanceLogEntry {
                timestamp: now,
                service_name: service_name.to_owned(),
                machine_id: machine_id.to_owned(),
                cert_serial: String::new(),
                expires_at,
                granted: false,
                reason: Some(reason.to_owned()),
            },
        );
    }

    /// Records that a request was refused.
    pub fn record_rejection(&mut self, service_name: &str, machine_id: &str, reason: &str)
        ensures
            final(self).file() == old(self).file(),
            final(self).pending().len() == old(self).pending().len() + 1,
            final(self).pending().drop_last() == old(self).pending(),
            exists|now: Timestamp, expires_at: Timestamp| #[trigger]
                records_rejection(
                    final(self).pending().last(),
                    service_name@,
                    machine_id@,
                    reason@,
                    now,
                    expires_at,
                ) && now.wf() && expires_at.wf() && clock::was_shown(now) && clock::was_shown(
                    expires_at,
                ),
    {
        let now: Timestamp = clock::now();
        let expires_at: Timestamp = clock::now();
        self.record_rejection_at(service_name, machine_id, reason, now, expires_at);
    }

    /// Hands out the entries that are to be written, the oldest first; none is handed out twice.
    pub fn take_pending(&mut self) -> (r: Vec<IssuanceLogEntry>)
        ensures
            r@ == old(self).pending(),
            final(self).pending() == Seq::<IssuanceLogEntry>::empty(),
            final(self).file() == old(self).file(),
    {
        let mut out: Vec<IssuanceLogEntry> = Vec::new();
        std::mem::swap(&mut out, &mut self.pending);
        out
    }
}

/// The line that is appended to the log file for an entry in JSON form.
pub fn framed(json: &str) -> (r: String)
    ensures
        r@ == json@ + "\n"@,
{
    text::concat2(json, "\n")
}

/// What came back from the last step of writing an entry. An error is given by its text.
#[derive(Debug)]
pub enum AppendEvent {
    /// The entry was turned into JSON.
    Serialized(Result<String, String>),
    /// The directory of the log file was made.
    DirMade { line: String, outcome: Result<(), String> },
    /// The log file was opened for appending.
    Opened { line: String, outcome: Result<(), String> },
    /// The line was written.
    Written(Result<(), String>),
}

/// What is to be done next to write an entry.
#[derive(Debug)]
pub enum AppendAction {
    /// Make the directory of the log file.
    MakeDir(String),
    /// Open the log file for appending.
    Open(String),
    /// Append this line.
    Write(String),
    /// Nothing more.
    Done,
    /// Nothing more: report what failed, and go on without the entry.
    GiveUp { what: &'static str, why: String },
}

/// Whether `action` gives the entry up because a step has failed.
pub open spec fn gives_up(action: AppendAction, step: Seq<char>, error: String) -> bool {
    action matches AppendAction::GiveUp { what, why } && what@ == step && why == error
}

/// What is to be done next to write an entry: its line is appended to the log file, whose directory
/// is made first. No failure goes further than the entry.
pub fn append(event: AppendEvent) -> (r: AppendAction)
    ensures
        match event {
            AppendEvent::Serialized(Ok(json)) => r matches AppendAction::MakeDir(line) && line@
                == json@ + "\n"@,
            AppendEvent::Serialized(Err(error)) => gives_up(
                r,
                "issuance_log.serialize_failed"@,
                error,
            ),
            AppendEvent::DirMade { line, outcome: Ok(_) } => r == AppendAction::Open(line),
            AppendEvent::DirMade { outcome: Err(error), .. } => gives_up(
                r,
                "issuance_log.mkdir_failed"@,
                error,
            ),
            AppendEvent::Opened { line, outcome: Ok(_) } => r == AppendAction::Write(line),
            AppendEvent::Opened { outcome: Err(error), .. } => gives_up(
                r,
                "issuance_log.open_failed"@,
                error,
            ),
            AppendEvent::Written(Ok(_)) => r is Done,
            AppendEvent::Written(Err(error)) => gives_up(r, "issuance_log.write_failed"@, error),
        },
{
    match event {
        AppendEvent::Serialized(Ok(json)) => AppendAction::MakeDir(framed(json.as_str())),
        AppendEvent::Serialized(Err(why)) => AppendAction::GiveUp {
            what: "issuance_log.serialize_failed",
            why,
        },
        AppendEvent::DirMade { line, outcome } => match outcome {
            Ok(_) => AppendAction::Open(line),
            Err(why) => AppendAction::GiveUp { what: "issuance_log.mkdir_failed", why },
        },
        AppendEvent::Opened { line, outcome } => match outcome {
            Ok(_) => AppendAction::Write(line),
            Err(why) => AppendAction::GiveUp { what: "issuance_log.open_failed", why },
        },
        AppendEvent::Written(Ok(_)) => AppendAction::Done,
        AppendEvent::Written(Err(why)) => AppendAction::GiveUp {
            what: "issuance_log.write_failed",
            why,
        },
    }
}

/// An entry gives a reason exactly if the request was refused.
pub proof fn only_refusals_have_reasons(
    entry: IssuanceLogEntry,
    service_name: Seq<char>,
    machine_id: Seq<char>,
    cert_serial: Seq<char>,
    reason: Seq<char>,
    expires_at: Timestamp,
    now: Timestamp,
)
    requires
        records_grant(entry, service_name, machine_id, cert_serial, expires_at, now)
            || records_rejection(entry, service_name, machine_id, reason, now, expires_at),
    ensures
        entry.granted <==> entry.reason is None,
{
}

/// A certificate that was issued is logged behind what was logged before, with the service, the machine,
/// the serial number, the expiry and the time, and without a reason.
pub proof fn grants_are_logged(
    log: &mut IssuanceLog,
    service_name: &str,
    machine_id: &str,
    cert_serial: &str,
    expires_at: Timestamp,
    now: Timestamp,
    taken: &mut IssuanceLog,
    entries: Vec<IssuanceLogEntry>,
)
    requires
        call_ensures(
            IssuanceLog::record_grant_at,
            (log, service_name, machine_id, cert_serial, expires_at, now),
            (),
        ),
        *taken == *final(log),
        call_ensures(IssuanceLog::take_pending, (taken,), entries),
    ensures
        entries@.len() == old(log).pending().len() + 1,
        entries@.drop_last() == old(log).pending(),
        ({
            let entry = entries@.last();
            &&& entry.granted && entry.reason is None
            &&& entry.service_name@ == service_name@
            &&& entry.machine_id@ == machine_id@
            &&& entry.cert_serial@ == cert_serial@
            &&& entry.expires_at == expires_at
            &&& entry.timestamp == now
        }),
        final(log).file() == old(log).file(),
        final(taken).pending().len() == 0,
{
}

/// A request that was refused is logged behind what was logged before, with the service, the machine, the
/// reason and the time, and without a serial number.
pub proof fn rejections_are_logged(
    log: &mut IssuanceLog,
    service_name: &str,
    machine_id: &str,
    reason: &str,
    now: Timestamp,
    expires_at: Timestamp,
    taken: &mut IssuanceLog,
    entries: Vec<IssuanceLogEntry>,
)
    requires
        call_ensures(
            IssuanceLog::record_rejection_at,
            (log, service_name, machine_id, reason, now, expires_at),
            (),
        ),
        *taken == *final(log),
        call_ensures(IssuanceLog::take_pending, (taken,), entries),
    ensures
        entries@.len() == old(log).pending().len() + 1,
        entries@.drop_last() == old(log).pending(),
        ({
            let entry = entries@.last();
            &&& !entry.granted
            &&& entry.reason matches Some(text) && text@ == reason@
            &&& entry.service_name@ == service_name@
            &&& entry.machine_id@ == machine_id@
            &&& entry.cert_serial@.len() == 0
            &&& entry.timestamp == now
            &&& entry.expires_at == expires_at
        }),
        final(log).file() == old(log).file(),
        final(taken).pending().len() == 0,
{
}

/// What is logged now has the time that the system clock shows.
pub proof fn entries_are_dated_by_the_clock(
    log: &mut IssuanceLog,
    service_name: &str,
    machine_id: &str,
    cert_serial: &str,
    expires_at: Timestamp,
    other: &mut IssuanceLog,
    reason: &str,
)
    requires
        call_ensures(
            IssuanceLog::record_grant,
            (log, service_name, machine_id, cert_serial, expires_at),
            (),
        ),
        call_ensures(
            IssuanceLog::record_rejection,
            (other, service_name, machine_id, reason),
            (),
        ),
    ensures
        final(log).pending().len() == old(log).pending().len() + 1,
        final(log).pending().drop_last() == old(log).pending(),
        ({
            let entry = final(log).pending().last();
            &&& clock::was_shown(entry.timestamp)
            &&& entry.granted && entry.reason is None
            &&& entry.service_name@ == service_name@
            &&& entry.machine_id@ == machine_id@
            &&& entry.cert_serial@ == cert_serial@
            &&& entry.expires_at == expires_at
        }),
        final(other).pending().len() == old(other).pending().len() + 1,
        final(other).pending().drop_last() == old(other).pending(),
        ({
            let entry = final(other).pending().last();
            &&& clock::was_shown(entry.timestamp)
            &&& !entry.granted
            &&& entry.reason matches Some(text) && text@ == reason@
            &&& entry.service_name@ == service_name@
            &&& entry.machine_id@ == machine_id@
            &&& entry.cert_serial@.len() == 0
            &&& clock::was_shown(entry.expires_at)
        }),
{
}

/// A log starts empty at the path that it is opened with.
pub proof fn logs_start_empty(path: &str, log: IssuanceLog, told: &str)
    requires
        call_ensures(IssuanceLog::open, (path,), log),
        call_ensures(IssuanceLog::path, (&log,), told),
    ensures
        told@ == path@,
        log.pending().len() == 0,
{
}

/// Writing an entry comes to the line that holds its JSON form and a newline: the directory is made, the
/// file is opened and that line is appended, and then nothing more is done.
pub proof fn entries_are_written_as_lines(
    json: String,
    made: AppendAction,
    line: String,
    opened: AppendAction,
    carried: String,
    written: AppendAction,
    done: AppendAction,
    framed_line: String,
    text: &str,
)
    requires
        call_ensures(append, (AppendEvent::Serialized(Ok(json)),), made),
        made == AppendAction::MakeDir(line),
        call_ensures(append, (AppendEvent::DirMade { line, outcome: Ok(()) },), opened),
        opened == AppendAction::Open(carried),
        call_ensures(append, (AppendEvent::Opened { line: carried, outcome: Ok(()) },), written),
        call_ensures(append, (AppendEvent::Written(Ok(())),), done),
        text@ == json@,
        call_ensures(framed, (text,), framed_line),
    ensures
        written matches AppendAction::Write(last) && last@ == json@ + "\n"@ && last@ == framed_line@,
        done is Done,
{
}

/// Whatever fails on the way, the entry is given up with the text of the error; and no step that has
/// succeeded is taken for a failure.
pub proof fn failures_give_the_entry_up(event: AppendEvent, r: AppendAction)
    requires
        call_ensures(append, (event,), r),
    ensures
        match event {
            AppendEvent::Serialized(outcome) => {
                &&& outcome is Ok <==> r is MakeDir
                &&& outcome matches Err(error) ==> r matches AppendAction::GiveUp { what, why } && why@
                    == error@ && what@ == "issuance_log.serialize_failed"@
            },
            AppendEvent::DirMade { outcome, .. } => {
                &&& outcome is Ok <==> r is Open
                &&& outcome matches Err(error) ==> r matches AppendAction::GiveUp { what, why } && why@
                    == error@ && what@ == "issuance_log.mkdir_failed"@
            },
            AppendEvent::Opened { outcome, .. } => {
                &&& outcome is Ok <==> r is Write
                &&& outcome matches Err(error) ==> r matches AppendAction::GiveUp { what, why } && why@
                    == error@ && what@ == "issuance_log.open_failed"@
            },
            AppendEvent::Written(outcome) => {
                &&& outcome is Ok <==> r is Done
                &&& outcome matches Err(error) ==> r matches AppendAction::GiveUp { what, why } && why@
                    == error@ && what@ == "issuance_log.write_failed"@
            },
        },
{
}

} // verus!
