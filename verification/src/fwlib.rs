//! The session with one machine controller: its busy and connectivity
//! flags, the simulated controller, and the steps of a read and of a write
//! with reconnection.
//!
//! The native controller library is called by the owner of the session. A
//! function here decides what is to be called next, and takes what the call
//! returned.
use vstd::prelude::*;
use std::collections::HashMap;

verus! {

broadcast use vstd::std_specs::hash::group_hash_axioms;

/// The time to wait between two attempts to connect again, in milliseconds.
pub const RECONNECT_DELAY_MS: u64 = 5000;

/// The timeout, in seconds, that an attempt to connect again is made with.
pub const RECONNECT_TIMEOUT: i32 = 1;

/// The length that the native library is told for one tool offset.
pub const TOFS_LENGTH: i16 = 8;

/// One tool offset as the controller reports it.
#[derive(Debug, Clone, Copy, PartialEq, Eq, Structural)]
pub struct ODBTOFS {
    pub datano: i16,
    pub ofs_type: i16,
    pub data: i32,
}

/// The state of a simulated controller.
#[derive(Debug)]
pub struct DummyState {
    /// The offset stored for each tool number. A tool without one reads as 0.
    pub offsets: HashMap<i16, i32>,
    pub life: i16,
    pub count: i16,
}

/// A simulated controller as plain values.
pub struct DummyStateView {
    pub offsets: Map<i16, i32>,
    pub life: i16,
    pub count: i16,
}

impl View for DummyState {
    type V = DummyStateView;

    open spec fn view(&self) -> DummyStateView {
        DummyStateView { offsets: self.offsets@, life: self.life, count: self.count }
    }
}

impl DummyStateView {
    /// The offset stored for a tool, 0 if none was written.
    pub open spec fn offset(self, number: i16) -> i32 {
        if self.offsets.contains_key(number) {
            self.offsets[number]
        } else {
            0
        }
    }

    /// The state after a write of `data` to tool `number`.
    pub open spec fn written(self, number: i16, data: i32) -> DummyStateView {
        DummyStateView { offsets: self.offsets.insert(number, data), ..self }
    }
}

/// Why an operation on a controller failed.
#[derive(Debug, Clone, Copy, PartialEq, Eq, Structural)]
pub enum FocasError {
    /// The native library could not connect, and returned `code`.
    ConnectFailed { code: i16 },
    /// The native read of a tool offset returned `code`.
    ReadFailed { code: i16 },
    /// The native read of a tool life returned `code`.
    LifeFailed { code: i16 },
    /// The native read of a tool count returned `code`.
    CountFailed { code: i16 },
}

/// The session with one controller as plain values.
pub struct ControllerSession {
    /// The address of the controller.
    pub ip: Seq<char>,
    /// The controller's port.
    pub port: i16,
    /// The handle of the native library, 0 while there is none.
    pub native_handle: u64,
    /// Whether an operation is in flight.
    pub busy: bool,
    /// The simulated controller, where the session has one in place of a
    /// native connection.
    pub dummy: Option<DummyStateView>,
}

impl ControllerSession {
    /// Whether the controller can be reached: it is simulated, or the
    /// session holds a native handle.
    pub open spec fn connectivity(self) -> bool {
        self.dummy is Some || self.native_handle != 0
    }

    /// Whether an operation may start: nothing is in flight, and the
    /// controller can be reached.
    pub open spec fn available(self) -> bool {
        !self.busy && self.connectivity()
    }
}

/// What is to be done next for a write of a tool offset.
#[derive(Debug, Clone, Copy, PartialEq, Eq, Structural)]
pub enum WriteStep {
    /// The write is refused: the controller is busy or unreachable.
    Refused,
    /// The write is done.
    Done,
    /// Call the native write with this handle and the length `TOFS_LENGTH`,
    /// and hand what it returns to `write_returned`.
    CallWrite { handle: u64, number: i16, ofs_type: i16, data: i32 },
    /// The write failed. Free the handle `release`, connect with the
    /// timeout `RECONNECT_TIMEOUT`, and hand what that returns to
    /// `reconnect_returned`.
    Reconnect { release: u64 },
    /// Connecting failed. Wait `RECONNECT_DELAY_MS`, connect again, and hand
    /// what that returns to `reconnect_returned`.
    RetryConnect,
}

/// What is to be done next for a read.
#[derive(Debug, Clone, Copy, PartialEq, Eq, Structural)]
pub enum ReadStep {
    /// The read is refused: the controller is busy or unreachable.
    Refused,
    /// The simulated controller has answered with this value.
    Value { data: i32 },
    /// Call the native read with this handle, and hand what it returns to
    /// the function that belongs to the read.
    CallRead { handle: u64, number: i16 },
}

/// What is to be done next for a read of a tool offset.
#[derive(Debug, Clone, Copy, PartialEq, Eq, Structural)]
pub enum OffsetStep {
    /// The read is refused: the controller is busy or unreachable.
    Refused,
    /// The simulated controller has answered with this offset.
    Value { tofs: ODBTOFS },
    /// Call the native read with this handle and the length `TOFS_LENGTH`,
    /// and hand what it returns to `offset_returned`.
    CallRead { handle: u64, number: i16, ofs_type: i16 },
}

/// The session and the step after a write has been asked for.
pub open spec fn write_start(s: ControllerSession, number: i16, ofs_type: i16, data: i32) -> (
    ControllerSession,
    WriteStep,
) {
    if !s.available() {
        (s, WriteStep::Refused)
    } else if s.dummy is Some {
        (ControllerSession { dummy: Some(s.dummy.unwrap().written(number, data)), ..s }, WriteStep::Done)
    } else {
        (
            ControllerSession { busy: true, ..s },
            WriteStep::CallWrite { handle: s.native_handle, number, ofs_type, data },
        )
    }
}

/// The session and the step after the native write has returned `ret`.
/// Zero is success. On a failure the session gives up its handle and is
/// unreachable until a connection is made again.
pub open spec fn write_finish(s: ControllerSession, ret: i16) -> (ControllerSession, WriteStep) {
    if ret == 0 {
        (ControllerSession { busy: false, ..s }, WriteStep::Done)
    } else {
        (
            ControllerSession { busy: false, native_handle: 0, ..s },
            WriteStep::Reconnect { release: s.native_handle },
        )
    }
}

/// The session and the step after an attempt to connect again has returned
/// `ret` and `handle`. The attempt has succeeded if `ret` is zero and the
/// handle is one: the session then takes the handle, and the write is made
/// again from the start. After any other attempt the session is as it was,
/// and the attempt is to be made again.
pub open spec fn reconnect_finish(
    s: ControllerSession,
    ret: i16,
    handle: u64,
    number: i16,
    ofs_type: i16,
    data: i32,
) -> (ControllerSession, WriteStep) {
    if ret != 0 || handle == 0 {
        (s, WriteStep::RetryConnect)
    } else {
        (
            ControllerSession { busy: true, native_handle: handle, ..s },
            WriteStep::CallWrite { handle, number, ofs_type, data },
        )
    }
}

/// The session and the step after a read has been asked for. `simulated` is
/// what a simulated controller answers. A native read makes the session
/// busy until it has returned.
pub open spec fn read_start(s: ControllerSession, number: i16, simulated: i32) -> (
    ControllerSession,
    ReadStep,
) {
    if !s.available() {
        (s, ReadStep::Refused)
    } else if s.dummy is Some {
        (s, ReadStep::Value { data: simulated })
    } else {
        (ControllerSession { busy: true, ..s }, ReadStep::CallRead { handle: s.native_handle, number })
    }
}

/// The session and the step after a read of the offset of tool `number`
/// has been asked for. The simulated controller answers with the offset it
/// holds, under the tool number and the offset type that were asked for. A
/// native read makes the session busy until it has returned.
pub open spec fn offset_read_start(s: ControllerSession, number: i16, ofs_type: i16) -> (
    ControllerSession,
    OffsetStep,
) {
    if !s.available() {
        (s, OffsetStep::Refused)
    } else if s.dummy is Some {
        (
            s,
            OffsetStep::Value {
                tofs: ODBTOFS { datano: number, ofs_type, data: simulated_offset(s, number) },
            },
        )
    } else {
        (
            ControllerSession { busy: true, ..s },
            OffsetStep::CallRead { handle: s.native_handle, number, ofs_type },
        )
    }
}

/// The offset that a simulated controller answers for a tool, 0 where the
/// session has none.
pub open spec fn simulated_offset(s: ControllerSession, number: i16) -> i32 {
    match s.dummy {
        Some(d) => d.offset(number),
        None => 0,
    }
}

/// The life that a simulated controller answers, 0 where the session has
/// none.
pub open spec fn simulated_life(s: ControllerSession) -> i32 {
    match s.dummy {
        Some(d) => d.life as i32,
        None => 0,
    }
}

/// The count that a simulated controller answers, 0 where the session has
/// none.
pub open spec fn simulated_count(s: ControllerSession) -> i32 {
    match s.dummy {
        Some(d) => d.count as i32,
        None => 0,
    }
}

/// The session with one machine controller.
#[derive(Debug)]
pub struct FocasClient {
    handle: u64,
    ip: String,
    port: i16,
    busy: bool,
    dummy_state: Option<DummyState>,
}

impl View for FocasClient {
    type V = ControllerSession;

    closed spec fn view(&self) -> ControllerSession {
        ControllerSession {
            ip: self.ip@,
            port: self.port,
            native_handle: self.handle,
            busy: self.busy,
            dummy: match self.dummy_state {
                Some(d) => Some(d@),
                None => None,
            },
        }
    }
}

/// Whether an address names the simulated controller.
pub open spec fn is_dummy(ip: Seq<char>) -> bool {
    ip == "dummy"@
}

impl FocasClient {
    /// Whether an address names the simulated controller, for which no
    /// native connection is made.
    pub fn is_dummy_address(ip: &str) -> (r: bool)
        ensures
            r == is_dummy(ip@),
    {
        let a: String = ip.to_owned();
        let b: String = "dummy".to_owned();
        a == b
    }

    /// A session for the controller at `ip`. For the simulated controller
    /// the session starts with no offsets, a life of 100 and a count of 0,
    /// and `ret` and `handle` are not looked at. For any other address `ret`
    /// and `handle` are what the native connect returned: the session holds
    /// the handle if `ret` is zero, and there is no session otherwise.
    pub fn new(ip: &str, port: i16, ret: i16, handle: u64) -> (r: Result<Self, FocasError>)
        ensures
            is_dummy(ip@) ==> r is Ok && r.unwrap()@ == (ControllerSession {
                ip: ip@,
                port,
                native_handle: 0,
                busy: false,
                dummy: Some(
                    DummyStateView { offsets: Map::<i16, i32>::empty(), life: 100, count: 0 },
                ),
            }),
            !is_dummy(ip@) && ret == 0 ==> r is Ok && r.unwrap()@ == (ControllerSession {
                ip: ip@,
                port,
                native_handle: handle,
                busy: false,
                dummy: None,
            }),
            !is_dummy(ip@) && ret != 0 ==> r == Err::<Self, FocasError>(
                FocasError::ConnectFailed { code: ret },
            ),
    {
        if Self::is_dummy_address(ip) {
            return Ok(
                FocasClient {
                    handle: 0,
                    ip: ip.to_owned(),
                    port,
                    busy: false,
                    dummy_state: Some(DummyState { offsets: HashMap::new(), life: 100, count: 0 }),
                },
            );
        }
        if ret != 0 {
            Err(FocasError::ConnectFailed { code: ret })
        } else {
            Ok(FocasClient { handle, ip: ip.to_owned(), port, busy: false, dummy_state: None })
        }
    }

    /// The address of the controller.
    pub fn ip(&self) -> (ip: &String)
        ensures
            ip@ == self@.ip,
    {
        &self.ip
    }

    /// The controller's port.
    pub fn port(&self) -> (port: i16)
        ensures
            port == self@.port,
    {
        self.port
    }

    /// Whether the controller can be reached.
    pub fn is_connected(&self) -> (r: bool)
        ensures
            r == self@.connectivity(),
    {
        if self.dummy_state.is_some() {
            return true;
        }
        self.handle != 0
    }

    /// Sets the busy flag.
    pub fn set_busy(&mut self, busy: bool)
        ensures
            final(self)@ == (ControllerSession { busy, ..old(self)@ }),
    {
        self.busy = busy;
    }

    /// Whether an operation is in flight.
    pub fn is_busy(&self) -> (r: bool)
        ensures
            r == self@.busy,
    {
        self.busy
    }

    /// Asks for a write of `data` to the offset of tool `number`. A busy or
    /// unreachable controller refuses, and nothing changes. The simulated
    /// controller stores the value at once. Otherwise the session becomes
    /// busy, and the native write is to be called.
    pub fn wrtofs(&mut self, number: i16, ofs_type: i16, data: i32) -> (step: WriteStep)
        ensures
            (final(self)@, step) == write_start(old(self)@, number, ofs_type, data),
    {
        if self.is_busy() || !self.is_connected() {
            return WriteStep::Refused;
        }
        match &mut self.dummy_state {
            Some(state) => {
                state.offsets.insert(number, data);
                WriteStep::Done
            },
            None => {
                self.busy = true;
                WriteStep::CallWrite { handle: self.handle, number, ofs_type, data }
            },
        }
    }

    /// Takes what the native write returned. On success the write is done
    /// and the session is idle again. On a failure the session is idle but
    /// gives up its handle, so that it is unreachable, and the handle is to
    /// be freed and a connection to be made again.
    pub fn write_returned(&mut self, ret: i16) -> (step: WriteStep)
        ensures
            (final(self)@, step) == write_finish(old(self)@, ret),
    {
        self.busy = false;
        if ret == 0 {
            WriteStep::Done
        } else {
            let release: u64 = self.handle;
            self.handle = 0;
            WriteStep::Reconnect { release }
        }
    }

    /// Takes what an attempt to connect again returned. After a failure,
    /// which an attempt that hands out no handle is too, the attempt is to
    /// be made again, without end. After a success the session holds the new
    /// handle and is busy, and the write that had failed is to be called
    /// again.
    pub fn reconnect_returned(
        &mut self,
        ret: i16,
        handle: u64,
        number: i16,
        ofs_type: i16,
        data: i32,
    ) -> (step: WriteStep)
        ensures
            (final(self)@, step) == reconnect_finish(
                old(self)@,
                ret,
                handle,
                number,
                ofs_type,
                data,
            ),
    {
        if ret != 0 || handle == 0 {
            WriteStep::RetryConnect
        } else {
            self.handle = handle;
            self.busy = true;
            WriteStep::CallWrite { handle, number, ofs_type, data }
        }
    }

    /// Asks for a read of the offset of tool `number`. A busy or unreachable
    /// controller refuses, and nothing changes. The simulated controller
    /// answers at once. Otherwise the session becomes busy and the native
    /// read is to be called; what it returns goes to `offset_returned`. A
    /// read never starts a reconnection.
    pub fn rdtofs(&mut self, number: i16, ofs_type: i16) -> (step: OffsetStep)
        ensures
            (final(self)@, step) == offset_read_start(old(self)@, number, ofs_type),
    {
        if self.is_busy() || !self.is_connected() {
            return OffsetStep::Refused;
        }
        match &self.dummy_state {
            Some(state) => {
                let data: i32 = match state.offsets.get(&number) {
                    Some(v) => *v,
                    None => 0,
                };
                OffsetStep::Value { tofs: ODBTOFS { datano: number, ofs_type, data } }
            },
            None => {
                self.busy = true;
                OffsetStep::CallRead { handle: self.handle, number, ofs_type }
            },
        }
    }

    /// Takes what the native read of a tool offset returned: the session is
    /// idle again, and the result is the offset if the call returned zero,
    /// its code as an error otherwise.
    pub fn offset_returned(&mut self, number: i16, ofs_type: i16, ret: i16, data: i32) -> (r:
        Result<ODBTOFS, FocasError>)
        ensures
            final(self)@ == (ControllerSession { busy: false, ..old(self)@ }),
            r == if ret == 0 {
                Ok::<ODBTOFS, FocasError>(ODBTOFS { datano: number, ofs_type, data })
            } else {
                Err::<ODBTOFS, FocasError>(FocasError::ReadFailed { code: ret })
            },
    {
        self.busy = false;
        if ret == 0 {
            Ok(ODBTOFS { datano: number, ofs_type, data })
        } else {
            Err(FocasError::ReadFailed { code: ret })
        }
    }

    /// Asks for a read of the life of tool `number`, in the way of `rdtofs`;
    /// what the native read returns goes to `life_returned`.
    pub fn read_life(&mut self, number: i16) -> (step: ReadStep)
        ensures
            (final(self)@, step) == read_start(old(self)@, number, simulated_life(old(self)@)),
    {
        if self.is_busy() || !self.is_connected() {
            return ReadStep::Refused;
        }
        match &self.dummy_state {
            Some(state) => ReadStep::Value { data: state.life as i32 },
            None => {
                self.busy = true;
                ReadStep::CallRead { handle: self.handle, number }
            },
        }
    }

    /// Takes what the native read of a tool life returned: the session is
    /// idle again, and the result is the life if the call returned zero, its
    /// code as an error otherwise.
    pub fn life_returned(&mut self, ret: i16, data: i16) -> (r: Result<i16, FocasError>)
        ensures
            final(self)@ == (ControllerSession { busy: false, ..old(self)@ }),
            r == if ret == 0 {
                Ok::<i16, FocasError>(data)
            } else {
                Err::<i16, FocasError>(FocasError::LifeFailed { code: ret })
            },
    {
        self.busy = false;
        if ret == 0 {
            Ok(data)
        } else {
            Err(FocasError::LifeFailed { code: ret })
        }
    }

    /// Asks for a read of the count of tool `number`, in the way of
    /// `rdtofs`; what the native read returns goes to `count_returned`.
    pub fn read_count(&mut self, number: i16) -> (step: ReadStep)
        ensures
            (final(self)@, step) == read_start(old(self)@, number, simulated_count(old(self)@)),
    {
        if self.is_busy() || !self.is_connected() {
            return ReadStep::Refused;
        }
        match &self.dummy_state {
            Some(state) => ReadStep::Value { data: state.count as i32 },
            None => {
                self.busy = true;
                ReadStep::CallRead { handle: self.handle, number }
            },
        }
    }

    /// Takes what the native read of a tool count returned, in the way of
    /// `life_returned`.
    pub fn count_returned(&mut self, ret: i16, data: i16) -> (r: Result<i16, FocasError>)
        ensures
            final(self)@ == (ControllerSession { busy: false, ..old(self)@ }),
            r == if ret == 0 {
                Ok::<i16, FocasError>(data)
            } else {
                Err::<i16, FocasError>(FocasError::CountFailed { code: ret })
            },
    {
        self.busy = false;
        if ret == 0 {
            Ok(data)
        } else {
            Err(FocasError::CountFailed { code: ret })
        }
    }

    /// Asks for a query that only the native library can answer, such as
    /// the details of its last error. A busy or unreachable controller
    /// refuses. For the simulated controller the result is a value of zero,
    /// and nothing is to be called. Otherwise the session becomes busy and
    /// the query is to be called with the handle given; when it has
    /// returned, `query_returned` is to be told.
    pub fn begin_query(&mut self) -> (step: ReadStep)
        ensures
            (final(self)@, step) == read_start(old(self)@, 0, 0),
    {
        if self.is_busy() || !self.is_connected() {
            return ReadStep::Refused;
        }
        if self.dummy_state.is_some() {
            ReadStep::Value { data: 0 }
        } else {
            self.busy = true;
            ReadStep::CallRead { handle: self.handle, number: 0 }
        }
    }

    /// Takes note that a native query has returned: the session is idle
    /// again, whatever the query gave.
    pub fn query_returned(&mut self)
        ensures
            final(self)@ == (ControllerSession { busy: false, ..old(self)@ }),
    {
        self.busy = false;
    }

    /// The native handle that is to be freed when the session ends: the one
    /// it holds, unless the controller is simulated or there is none.
    pub fn release_on_drop(&self) -> (handle: Option<u64>)
        ensures
            handle == if self@.dummy is None && self@.native_handle != 0 {
                Some(self@.native_handle)
            } else {
                None::<u64>
            },
    {
        if self.dummy_state.is_some() || self.handle == 0 {
            None
        } else {
            Some(self.handle)
        }
    }
}

/// A busy session refuses every read and every write, and stays as it is:
/// busy.
pub proof fn busy_refuses_every_operation(
    s: ControllerSession,
    number: i16,
    ofs_type: i16,
    data: i32,
    simulated: i32,
)
    requires
        s.busy,
    ensures
        write_start(s, number, ofs_type, data) == (s, WriteStep::Refused),
        offset_read_start(s, number, ofs_type) == (s, OffsetStep::Refused),
        read_start(s, number, simulated) == (s, ReadStep::Refused),
{
}

/// No two native calls are in flight on one session: a native call is asked
/// for only by an idle session, which is busy from then on, and a busy
/// session asks for none. When the call has returned the session is idle
/// again, whether the call succeeded or failed.
pub proof fn native_calls_are_exclusive(
    s: ControllerSession,
    number: i16,
    ofs_type: i16,
    data: i32,
    simulated: i32,
    ret: i16,
)
    ensures
        write_start(s, number, ofs_type, data).1 is CallWrite ==> !s.busy && write_start(
            s,
            number,
            ofs_type,
            data,
        ).0.busy,
        offset_read_start(s, number, ofs_type).1 is CallRead ==> !s.busy && offset_read_start(
            s,
            number,
            ofs_type,
        ).0.busy,
        read_start(s, number, simulated).1 is CallRead ==> !s.busy && read_start(
            s,
            number,
            simulated,
        ).0.busy,
        !write_finish(s, ret).0.busy,
{
}

/// A failed native write leaves the session unreachable, so that it refuses
/// every further write. It stays unreachable through every failed attempt
/// to connect again, and through one that hands out no handle. The first
/// attempt that succeeds with a handle makes it reachable, and the write
/// that had failed is called again with the new handle; when that call
/// succeeds the write is done.
pub proof fn failed_write_disconnects_until_reconnected(
    s: ControllerSession,
    ret: i16,
    retry: i16,
    handle: u64,
    number: i16,
    ofs_type: i16,
    data: i32,
)
    requires
        s.dummy is None,
        ret != 0,
        retry != 0,
        handle != 0,
    ensures
        ({
            let failed = write_finish(s, ret).0;
            let again = reconnect_finish(failed, 0, handle, number, ofs_type, data);
            &&& write_finish(s, ret).1 == WriteStep::Reconnect { release: s.native_handle }
            &&& !failed.connectivity()
            &&& !failed.busy
            &&& forall|n: i16, o: i16, d: i32| #[trigger]
                write_start(failed, n, o, d) == (failed, WriteStep::Refused)
            &&& reconnect_finish(failed, retry, handle, number, ofs_type, data) == (
                failed,
                WriteStep::RetryConnect,
            )
            &&& reconnect_finish(failed, 0, 0, number, ofs_type, data) == (
                failed,
                WriteStep::RetryConnect,
            )
            &&& again.0.connectivity()
            &&& again.1 == WriteStep::CallWrite { handle, number, ofs_type, data }
            &&& write_finish(again.0, 0).1 == WriteStep::Done
            &&& write_finish(again.0, 0).0.available()
        }),
{
}

} // verus!
