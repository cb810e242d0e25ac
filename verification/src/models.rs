use vstd::prelude::*;

use crate::time::Timestamp;

verus! {

/// Whether a session is still running or has been closed. `clock_out` and
/// `message` exist together or not at all: a record is open exactly when
/// neither is set.
#[derive(Debug, PartialEq, Eq)]
pub enum SessionStatus {
    Open,
    Closed { clock_out: Timestamp, message: String },
}

/// The mathematical value of a `SessionStatus`.
#[verifier::ext_equal]
pub enum StatusView {
    Open,
    Closed { clock_out: int, message: Seq<char> },
}

impl View for SessionStatus {
    type V = StatusView;

    open spec fn view(&self) -> StatusView {
        match self {
            SessionStatus::Open => StatusView::Open,
            SessionStatus::Closed { clock_out, message } => StatusView::Closed {
                clock_out: clock_out@,
                message: message@,
            },
        }
    }
}

impl Clone for SessionStatus {
    fn clone(&self) -> (r: Self)
        ensures
            r == *self,
    {
        match self {
            SessionStatus::Open => SessionStatus::Open,
            SessionStatus::Closed { clock_out, message } => SessionStatus::Closed {
                clock_out: *clock_out,
                message: message.clone(),
            },
        }
    }
}

/// One work session as the store keeps it. `id` is assigned by the store at
/// insertion and never changes afterwards.
#[derive(Debug, PartialEq, Eq)]
pub struct Record {
    pub id: i64,
    pub job_name: String,
    pub clock_in: Timestamp,
    pub status: SessionStatus,
}

/// The mathematical value of a `Record`, with timestamps as milliseconds.
#[verifier::ext_equal]
pub struct RecordView {
    pub id: int,
    pub job_name: Seq<char>,
    pub clock_in: int,
    pub status: StatusView,
}

impl View for Record {
    type V = RecordView;

    open spec fn view(&self) -> RecordView {
        RecordView {
            id: self.id as int,
            job_name: self.job_name@,
            clock_in: self.clock_in@,
            status: self.status@,
        }
    }
}

impl Clone for Record {
    fn clone(&self) -> (r: Self)
        ensures
            r == *self,
    {
        Record {
            id: self.id,
            job_name: self.job_name.clone(),
            clock_in: self.clock_in,
            status: self.status.clone(),
        }
    }
}

impl Record {
    /// The timestamps of this record are well formed.
    pub open spec fn wf(self) -> bool {
        &&& self.clock_in.wf()
        &&& match self.status {
            SessionStatus::Open => true,
            SessionStatus::Closed { clock_out, .. } => clock_out.wf(),
        }
    }

    pub fn is_open(&self) -> (r: bool)
        ensures
            r == (self@.status is Open),
    {
        match self.status {
            SessionStatus::Open => true,
            SessionStatus::Closed { .. } => false,
        }
    }

    /// The closing instant, absent while the session is open.
    pub fn clock_out(&self) -> (r: Option<Timestamp>)
        ensures
            match self@.status {
                StatusView::Open => r is None,
                StatusView::Closed { clock_out, .. } => r matches Some(t) && t@ == clock_out,
            },
    {
        match &self.status {
            SessionStatus::Open => None,
            SessionStatus::Closed { clock_out, .. } => Some(*clock_out),
        }
    }

    /// The closing note, absent while the session is open.
    pub fn message(&self) -> (r: Option<String>)
        ensures
            match self@.status {
                StatusView::Open => r is None,
                StatusView::Closed { message, .. } => r matches Some(m) && m@ == message,
            },
    {
        match &self.status {
            SessionStatus::Open => None,
            SessionStatus::Closed { message, .. } => Some(message.clone()),
        }
    }
}

/// The fields a caller supplies to create a session record; the store fills
/// in the identifier and the record starts open.
#[derive(Debug, PartialEq, Eq)]
pub struct CreateRecord {
    pub job_name: String,
    pub clock_in: Timestamp,
}

impl Clone for CreateRecord {
    fn clone(&self) -> (r: Self)
        ensures
            r == *self,
    {
        CreateRecord { job_name: self.job_name.clone(), clock_in: self.clock_in }
    }
}

impl Default for CreateRecord {
    fn default() -> (r: Self)
        ensures
            r.job_name@ == Seq::<char>::empty(),
            r.clock_in@ == 0,
            r.clock_in.wf(),
    {
        CreateRecord { job_name: String::new(), clock_in: Timestamp::new(0, 0) }
    }
}

} // verus!
