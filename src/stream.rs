//! The stream guard and the stream handle: at most one stream is open at a
//! time, and each opened stream is terminated exactly once.
use crate::encoding::{encode_path, is_encoding_of, EncodedPath};
use crate::locator::Platform;
use vstd::prelude::*;

verus! {

/// The driver's entry points, as the stream logic calls them.
///
/// The shared-library binding implements it; a stand-in driver can too.
pub trait Driver {
    /// `IsKDMAPIAvailable`.
    fn is_available(&self) -> bool;

    /// `InitializeKDMAPIStream`: 0 on failure, nonzero on success.
    fn initialize_stream(&self) -> i32;

    /// `TerminateKDMAPIStream`.
    fn terminate_stream(&self) -> i32;

    /// `ResetKDMAPIStream`.
    fn reset_stream(&self);

    /// `SendDirectData`.
    fn send_direct_data(&self, data: u32) -> u32;

    /// `SendDirectDataNoBuf`.
    fn send_direct_data_no_buf(&self, data: u32) -> u32;

    /// `LoadCustomSoundFontsList`, given a null-terminated path.
    fn load_custom_soundfonts_list(&self, path: &EncodedPath) -> bool;
}

/// Why a stream could not be opened.
#[derive(Clone, Copy, Debug, PartialEq, Eq, Structural)]
pub enum OpenError {
    /// Another stream is open.
    AlreadyOpen,
    /// The driver's stream initialisation reported failure.
    InitFailed,
}

/// The description of each open error.
pub open spec fn message_of(e: OpenError) -> Seq<char> {
    match e {
        OpenError::AlreadyOpen => "KDMAPI stream is already open"@,
        OpenError::InitFailed => "Failed to initialize KDMAPI stream"@,
    }
}

impl OpenError {
    /// A human-readable description.
    pub fn message(&self) -> (r: &'static str)
        ensures
            r@ == message_of(*self),
    {
        match self {
            OpenError::AlreadyOpen => "KDMAPI stream is already open",
            OpenError::InitFailed => "Failed to initialize KDMAPI stream",
        }
    }
}

/// The guard flag and verdict after the check-and-set on a guard that was
/// `held`.
pub open spec fn claim_spec(held: bool) -> (bool, Result<(), OpenError>) {
    if held {
        (true, Err(OpenError::AlreadyOpen))
    } else {
        (true, Ok(()))
    }
}

/// The guard flag and verdict once the driver's initialisation returned `code`.
pub open spec fn settle_spec(code: i32) -> (bool, Result<(), OpenError>) {
    if code == 0 {
        (false, Err(OpenError::InitFailed))
    } else {
        (true, Ok(()))
    }
}

/// The guard flag and verdict of a whole open attempt on a guard that was
/// `held`, where the driver's initialisation would return `code`.
pub open spec fn open_spec(held: bool, code: i32) -> (bool, Result<(), OpenError>) {
    if held {
        claim_spec(held)
    } else {
        settle_spec(code)
    }
}

/// The guard flag after closing a handle that was `live`.
pub open spec fn guard_after_close(live: bool, held: bool) -> bool {
    if live {
        false
    } else {
        held
    }
}

/// An open result with the handle left out.
pub open spec fn verdict<T>(r: Result<T, OpenError>) -> Result<(), OpenError> {
    match r {
        Ok(_) => Ok(()),
        Err(e) => Err(e),
    }
}

/// The driver's bindings together with the stream guard.
pub struct KDMAPIBinds<D> {
    driver: D,
    platform: Platform,
    is_stream_open: bool,
    session: u64,
}

/// A stream opened by one `KDMAPIBinds`. Closing it terminates the driver's
/// stream and clears the guard; closing it again does nothing.
pub struct KDMAPIStream {
    live: bool,
    session: u64,
}

/// What one call of `close` did: `terminated` tells whether the driver's
/// stream was terminated, and the handle is closed afterwards.
pub open spec fn close_step(before: KDMAPIStream, after: KDMAPIStream, terminated: bool) -> bool {
    &&& terminated == before.is_live()
    &&& !after.is_live()
    &&& after.session_spec() == before.session_spec()
}

impl<D: Driver> KDMAPIBinds<D> {
    /// The guard flag: a stream is open.
    pub closed spec fn stream_open(&self) -> bool {
        self.is_stream_open
    }

    /// The platform whose path encoding the driver takes.
    pub closed spec fn platform_spec(&self) -> Platform {
        self.platform
    }

    /// The driver that the bindings call.
    pub closed spec fn driver_spec(&self) -> D {
        self.driver
    }

    /// The number of the most recent stream opened, which the handle of that
    /// stream carries.
    pub closed spec fn session_spec(&self) -> u64 {
        self.session
    }

    /// The driver and the platform are those of `other`: only the guard and
    /// the stream count may differ.
    pub open spec fn same_binding(&self, other: &Self) -> bool {
        &&& self.driver_spec() == other.driver_spec()
        &&& self.platform_spec() == other.platform_spec()
    }

    /// Bindings over `driver` with no stream open.
    pub fn new(driver: D, platform: Platform) -> (r: Self)
        ensures
            !r.stream_open(),
            r.platform_spec() == platform,
            r.driver_spec() == driver,
    {
        KDMAPIBinds { driver, platform, is_stream_open: false, session: 0 }
    }

    /// The platform whose path encoding the driver takes.
    pub fn platform(&self) -> (r: Platform)
        ensures
            r == self.platform_spec(),
    {
        self.platform
    }

    /// The driver that the bindings call.
    pub fn driver(&self) -> (r: &D)
        ensures
            *r == self.driver_spec(),
    {
        &self.driver
    }

    /// Calls `IsKDMAPIAvailable` and returns its answer. Whether a stream can
    /// be opened is decided by `open_stream` alone.
    pub fn is_kdmapi_available(&self) -> (r: bool)
        ensures
            call_ensures(D::is_available, (&self.driver_spec(),), r),
    {
        self.driver.is_available()
    }

    /// Whether a stream is open.
    pub fn is_stream_open(&self) -> (r: bool)
        ensures
            r == self.stream_open(),
    {
        self.is_stream_open
    }

    /// The check-and-set on the guard: fails with `AlreadyOpen` when a
    /// stream is open, and otherwise sets the guard.
    pub fn claim_stream(&mut self) -> (r: Result<(), OpenError>)
        ensures
            (final(self).stream_open(), r) == claim_spec(old(self).stream_open()),
            final(self).same_binding(old(self)),
            final(self).session_spec() == old(self).session_spec(),
    {
        if self.is_stream_open {
            Err(OpenError::AlreadyOpen)
        } else {
            self.is_stream_open = true;
            Ok(())
        }
    }

    /// Finishes an open attempt whose claim succeeded, given what the
    /// driver's initialisation returned: a nonzero `code` yields a live
    /// stream of a new session, 0 yields `InitFailed` and clears the guard.
    pub fn settle_stream(&mut self, code: i32) -> (r: Result<KDMAPIStream, OpenError>)
        requires
            old(self).stream_open(),
        ensures
            (final(self).stream_open(), verdict(r)) == settle_spec(code),
            final(self).same_binding(old(self)),
            r is Err ==> final(self).session_spec() == old(self).session_spec(),
            r matches Ok(s) ==> s.is_live() && s.opened_by(final(self)),
    {
        if code == 0 {
            self.is_stream_open = false;
            Err(OpenError::InitFailed)
        } else {
            self.session = self.session.wrapping_add(1);
            Ok(KDMAPIStream { live: true, session: self.session })
        }
    }

    /// Opens the driver's stream. Fails with `AlreadyOpen`, without calling
    /// the driver, while another stream is open; otherwise calls
    /// `InitializeKDMAPIStream` and fails with `InitFailed` when it returns 0.
    pub fn open_stream(&mut self) -> (r: Result<KDMAPIStream, OpenError>)
        ensures
            old(self).stream_open() ==> r == Err::<KDMAPIStream, OpenError>(
                OpenError::AlreadyOpen,
            ) && final(self).stream_open(),
            exists|code: i32|
                (!old(self).stream_open() ==> call_ensures(
                    D::initialize_stream,
                    (&old(self).driver_spec(),),
                    code,
                )) && (final(self).stream_open(), verdict(r)) == open_spec(
                    old(self).stream_open(),
                    code,
                ),
            final(self).same_binding(old(self)),
            r is Err ==> final(self).session_spec() == old(self).session_spec(),
            r matches Ok(s) ==> s.is_live() && s.opened_by(final(self)),
    {
        match self.claim_stream() {
            Err(e) => {
                assert((self.stream_open(), verdict(Err::<KDMAPIStream, OpenError>(e)))
                    == open_spec(true, 0));
                Err(e)
            },
            Ok(()) => {
                let code = self.driver.initialize_stream();
                let r = self.settle_stream(code);
                assert((self.stream_open(), verdict(r)) == open_spec(false, code));
                r
            },
        }
    }
}

impl KDMAPIStream {
    /// The stream has not been closed.
    pub closed spec fn is_live(&self) -> bool {
        self.live
    }

    /// The number of the session this handle was opened as.
    pub closed spec fn session_spec(&self) -> u64 {
        self.session
    }

    /// `binds` opened this handle, and has opened no stream since.
    pub open spec fn opened_by<D: Driver>(&self, binds: &KDMAPIBinds<D>) -> bool {
        self.session_spec() == binds.session_spec()
    }

    /// Whether the stream has not been closed.
    pub fn is_open(&self) -> (r: bool)
        ensures
            r == self.is_live(),
    {
        self.live
    }

    /// Whether `binds` opened this handle and has opened no stream since.
    pub fn belongs_to<D: Driver>(&self, binds: &KDMAPIBinds<D>) -> (r: bool)
        ensures
            r == self.opened_by(binds),
    {
        self.session == binds.session
    }

    /// Calls `ResetKDMAPIStream`.
    pub fn reset<D: Driver>(&self, binds: &KDMAPIBinds<D>)
        requires
            self.is_live(),
            self.opened_by(binds),
        ensures
            call_ensures(D::reset_stream, (&binds.driver_spec(),), ()),
    {
        binds.driver.reset_stream();
    }

    /// Calls `SendDirectData` with `data` and returns its response unchanged.
    pub fn send_direct_data<D: Driver>(&self, binds: &KDMAPIBinds<D>, data: u32) -> (r: u32)
        requires
            self.is_live(),
            self.opened_by(binds),
        ensures
            call_ensures(D::send_direct_data, (&binds.driver_spec(), data), r),
    {
        binds.driver.send_direct_data(data)
    }

    /// Calls `SendDirectDataNoBuf` with `data` and returns its response
    /// unchanged.
    pub fn send_direct_data_no_buf<D: Driver>(&self, binds: &KDMAPIBinds<D>, data: u32) -> (r: u32)
        requires
            self.is_live(),
            self.opened_by(binds),
        ensures
            call_ensures(D::send_direct_data_no_buf, (&binds.driver_spec(), data), r),
    {
        binds.driver.send_direct_data_no_buf(data)
    }

    /// Encodes `path` for the driver's platform, calls
    /// `LoadCustomSoundFontsList` with it and returns the driver's answer.
    pub fn load_custom_soundfonts_list<D: Driver>(
        &self,
        binds: &KDMAPIBinds<D>,
        path: &str,
    ) -> (r: bool)
        requires
            self.is_live(),
            self.opened_by(binds),
        ensures
            exists|p: EncodedPath|
                is_encoding_of(p, binds.platform_spec(), path@) && #[trigger] call_ensures(
                    D::load_custom_soundfonts_list,
                    (&binds.driver_spec(), &p),
                    r,
                ),
    {
        let encoded = encode_path(binds.platform, path);
        let r = binds.driver.load_custom_soundfonts_list(&encoded);
        assert(is_encoding_of(encoded, binds.platform_spec(), path@));
        assert(call_ensures(D::load_custom_soundfonts_list, (&binds.driver_spec(), &encoded), r));
        r
    }

    /// Ends the stream: on a live handle calls `TerminateKDMAPIStream`, whose
    /// result is not inspected, and clears the guard; on a closed handle does
    /// nothing. Returns whether the driver was called.
    pub fn close<D: Driver>(&mut self, binds: &mut KDMAPIBinds<D>) -> (terminated: bool)
        requires
            old(self).is_live() ==> old(self).opened_by(old(binds)),
        ensures
            close_step(*old(self), *final(self), terminated),
            terminated ==> exists|v: i32|
                call_ensures(D::terminate_stream, (&old(binds).driver_spec(),), v),
            final(binds).stream_open() == guard_after_close(
                old(self).is_live(),
                old(binds).stream_open(),
            ),
            final(binds).same_binding(old(binds)),
            final(binds).session_spec() == old(binds).session_spec(),
    {
        if self.live {
            let v = binds.driver.terminate_stream();
            assert(call_ensures(D::terminate_stream, (&binds.driver_spec(),), v));
            binds.is_stream_open = false;
            self.live = false;
            true
        } else {
            false
        }
    }
}

/// The verdicts of a run of open attempts with no close in between, on a
/// guard that was `held` at the start; the driver's initialisation would
/// return `codes[i]` to attempt `i`.
pub open spec fn open_run(held: bool, codes: Seq<i32>) -> Seq<Result<(), OpenError>>
    decreases codes.len(),
{
    if codes.len() == 0 {
        seq![]
    } else {
        seq![open_spec(held, codes[0]).1] + open_run(open_spec(held, codes[0]).0, codes.drop_first())
    }
}

/// At most one stream at a time: while a stream is open every open attempt
/// is refused as already open, and once an attempt succeeds every later
/// attempt is refused until the stream is closed.
pub proof fn lemma_one_stream_at_a_time(held: bool, codes: Seq<i32>)
    ensures
        open_run(held, codes).len() == codes.len(),
        held ==> forall|i: int|
            0 <= i < codes.len() ==> #[trigger] open_run(held, codes)[i] == Err::<(), OpenError>(
                OpenError::AlreadyOpen,
            ),
        forall|i: int, j: int|
            0 <= i < j < codes.len() && (#[trigger] open_run(held, codes)[i]) is Ok ==> (
            #[trigger] open_run(held, codes)[j]) == Err::<(), OpenError>(OpenError::AlreadyOpen),
    decreases codes.len(),
{
    if codes.len() > 0 {
        let h = open_spec(held, codes[0]).0;
        let rest = codes.drop_first();
        lemma_one_stream_at_a_time(h, rest);
        let run = open_run(held, codes);
        assert forall|k: int| 0 < k < codes.len() implies run[k] == open_run(h, rest)[k - 1] by {}
    }
}

/// Closing a live stream clears the guard: the next open attempt is never
/// refused as already open, and succeeds when the driver initialises.
pub proof fn lemma_reopen_after_close(held: bool, code: i32)
    ensures
        open_spec(guard_after_close(true, held), code).1 != Err::<(), OpenError>(
            OpenError::AlreadyOpen,
        ),
        code != 0 ==> open_spec(guard_after_close(true, held), code) == (true, Ok::<
            (),
            OpenError,
        >(())),
{
}

/// A failed initialisation leaves the guard clear, so a later attempt
/// succeeds once the driver initialises.
pub proof fn lemma_retry_after_init_failure(code: i32)
    requires
        code != 0,
    ensures
        open_spec(false, 0) == (false, Err::<(), OpenError>(OpenError::InitFailed)),
        open_spec(open_spec(false, 0).0, code) == (true, Ok::<(), OpenError>(())),
{
}

/// However often a live handle is closed, the driver's stream is terminated
/// exactly once: by the first close, and by no later one.
pub proof fn lemma_terminate_once(
    s0: KDMAPIStream,
    s1: KDMAPIStream,
    s2: KDMAPIStream,
    first: bool,
    second: bool,
)
    requires
        s0.is_live(),
        close_step(s0, s1, first),
        close_step(s1, s2, second),
    ensures
        first,
        !second,
        !s2.is_live(),
{
}

} // verus!
