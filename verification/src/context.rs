//! Contexts: the identity of a native library instance, and what the calls
//! made on one give back.

use crate::device::DeviceHandle;
use crate::device_list::DeviceList;
use crate::error::{check_status, error_of_code, Error};
use crate::fields::int_ordering;
use crate::hotplug::{HotplugBuilder, Registration};
use crate::shared::{Shared, SharedView};
use core::cmp::Ordering;
use vstd::prelude::*;

verus! {

/// Library logging levels, each including the ones before it.
#[derive(Debug, Clone, Copy, PartialEq, Eq, Ord, Structural)]
pub enum LogLevel {
    /// No messages are printed (default).
    Off,
    /// Error messages are printed.
    Error,
    /// Warning and error messages are printed.
    Warning,
    /// Informational messages, warnings and errors are printed.
    Info,
    /// Debug and informational messages, warnings and errors are printed.
    Debug,
}

impl LogLevel {
    /// The native constant of the level, which is also its place in the order.
    pub open spec fn rank(self) -> int {
        match self {
            LogLevel::Off => 0,
            LogLevel::Error => 1,
            LogLevel::Warning => 2,
            LogLevel::Info => 3,
            LogLevel::Debug => 4,
        }
    }

    /// Gets the native constant of the level.
    pub fn as_c_int(self) -> (n: i32)
        ensures
            n == self.rank(),
    {
        match self {
            LogLevel::Off => 0,
            LogLevel::Error => 1,
            LogLevel::Warning => 2,
            LogLevel::Info => 3,
            LogLevel::Debug => 4,
        }
    }
}

impl PartialOrd for LogLevel {
    fn partial_cmp(&self, other: &LogLevel) -> (r: Option<Ordering>) {
        let a: i32 = self.as_c_int();
        let b: i32 = other.as_c_int();
        if a < b {
            Some(Ordering::Less)
        } else if a == b {
            Some(Ordering::Equal)
        } else {
            Some(Ordering::Greater)
        }
    }
}

impl vstd::std_specs::cmp::PartialOrdSpecImpl for LogLevel {
    open spec fn obeys_partial_cmp_spec() -> bool {
        true
    }

    open spec fn partial_cmp_spec(&self, other: &LogLevel) -> Option<Ordering> {
        Some(int_ordering(self.rank(), other.rank()))
    }
}

/// The levels map one to one onto the native constants 0 to 4, and are
/// ordered as the constants are.
pub proof fn lemma_log_level_one_to_one(a: LogLevel, b: LogLevel)
    ensures
        0 <= a.rank() <= 4,
        a.rank() == b.rank() <==> a == b,
        LogLevel::Off.rank() < LogLevel::Error.rank() < LogLevel::Warning.rank()
            < LogLevel::Info.rank() < LogLevel::Debug.rank(),
{
}

/// A span of time: whole seconds and the nanoseconds beyond them.
#[derive(Debug, Clone, Copy, PartialEq, Eq, Structural)]
pub struct Timeout {
    /// Whole seconds.
    pub secs: u64,
    /// Nanoseconds beyond the whole seconds.
    pub subsec_nanos: u32,
}

/// A span of time as the native event loop takes it: seconds and microseconds.
#[derive(Debug, Clone, Copy, PartialEq, Eq, Structural)]
pub struct Timeval {
    /// Seconds.
    pub tv_sec: i64,
    /// Microseconds.
    pub tv_usec: i64,
}

impl Timeval {
    /// Tells whether the time is one that the native library reports as a
    /// pending timeout.
    pub fn is_normal(&self) -> (r: bool)
        ensures
            r == is_normal(*self),
    {
        0 <= self.tv_sec && 0 <= self.tv_usec && self.tv_usec < 1_000_000
    }
}

/// How long one round of event handling may wait.
#[derive(Debug, Clone, Copy, PartialEq, Eq, Structural)]
pub enum EventWait {
    /// Wait until at least one set of events has been handled.
    Blocking,
    /// Wait no longer than the given time. With a time of zero the pending
    /// events are handled and the call returns at once.
    Timed(Timeval),
}

/// The native form of a timeout. Microseconds are the nanoseconds divided
/// by 1000, rounded down. Seconds beyond the signed range wrap around, as
/// a conversion of the bits does.
pub open spec fn timeval_of(t: Timeout) -> Timeval {
    Timeval {
        tv_sec: if t.secs <= i64::MAX {
            t.secs as i64
        } else {
            (t.secs - 0x1_0000_0000_0000_0000) as i64
        },
        tv_usec: (t.subsec_nanos / 1000) as i64,
    }
}

/// How long event handling waits for a timeout: without one it blocks.
pub open spec fn event_wait_of(timeout: Option<Timeout>) -> EventWait {
    match timeout {
        None => EventWait::Blocking,
        Some(t) => EventWait::Timed(timeval_of(t)),
    }
}

/// What a round of event handling yields: an error for a negative value,
/// else success.
pub open spec fn events_outcome(n: int) -> Result<(), Error> {
    if n < 0 {
        Err(error_of_code(n))
    } else {
        Ok(())
    }
}

/// Whether a time is one that the native library reports as a pending
/// timeout: not negative, with less than a second of microseconds.
pub open spec fn is_normal(tv: Timeval) -> bool {
    0 <= tv.tv_sec && 0 <= tv.tv_usec < 1_000_000
}

/// What the query for the next timeout yields: zero means that none is
/// pending, a negative value is an error, and a positive one gives the time.
pub open spec fn next_timeout_outcome(n: int, tv: Timeval) -> Result<Option<Timeout>, Error> {
    if n == 0 {
        Ok(None)
    } else if n < 0 {
        Err(error_of_code(n))
    } else {
        Ok(Some(Timeout { secs: tv.tv_sec as u64, subsec_nanos: (tv.tv_usec * 1000) as u32 }))
    }
}

/// The error of the first status that is not zero, if there is one.
pub open spec fn first_failure(statuses: Seq<i32>) -> Option<Error>
    decreases statuses.len(),
{
    if statuses.len() == 0 {
        None
    } else if statuses[0] != 0 {
        Some(error_of_code(statuses[0] as int))
    } else {
        first_failure(statuses.skip(1))
    }
}

/// Converts a timeout to the native form.
pub fn timeval_from(t: Timeout) -> (tv: Timeval)
    ensures
        tv == timeval_of(t),
        tv.tv_sec == 0 && tv.tv_usec == 0 <==> t.secs == 0 && t.subsec_nanos < 1000,
{
    let tv_sec: i64 = if t.secs <= 0x7FFF_FFFF_FFFF_FFFF {
        t.secs as i64
    } else {
        let below: u64 = u64::MAX - t.secs;
        -(below as i64) - 1
    };
    Timeval { tv_sec, tv_usec: (t.subsec_nanos / 1000) as i64 }
}

/// The identity of a native library instance. The process-wide instance
/// has the identity zero; every other instance has the address that the
/// native library gave it.
#[derive(Debug, Clone, Copy, PartialEq, Eq, Structural)]
pub struct Context {
    raw: usize,
}

impl View for Context {
    type V = usize;

    closed spec fn view(&self) -> usize {
        self.raw
    }
}

impl Context {
    /// Reads what opening a new instance returned: the context where the
    /// status is zero, else the error. A new instance never has the
    /// identity zero, which is that of the global one.
    pub fn new(status: i32, raw: usize) -> (r: Result<Context, Error>)
        requires
            status == 0 ==> raw != 0,
        ensures
            r is Ok ==> !r->Ok_0.spec_is_global(),
            status == 0 ==> r is Ok && r->Ok_0@ == raw,
            status != 0 ==> r == Err::<Context, Error>(error_of_code(status as int)),
    {
        if status == 0 {
            Ok(Context { raw })
        } else {
            Err(Error::from(status))
        }
    }

    /// Reads what opening a new instance and then setting options on it
    /// returned. `statuses` holds the status of each option that was set, in
    /// order. The first failure is the result: that of opening, else that of
    /// the first option that failed. A new instance never has the identity
    /// zero, which is that of the global one.
    pub fn with_options(status: i32, raw: usize, statuses: &[i32]) -> (r: Result<Context, Error>)
        requires
            status == 0 ==> raw != 0,
        ensures
            r is Ok ==> !r->Ok_0.spec_is_global(),
            status != 0 ==> r == Err::<Context, Error>(error_of_code(status as int)),
            status == 0 ==> match first_failure(statuses@) {
                Some(e) => r == Err::<Context, Error>(e),
                None => r is Ok && r->Ok_0@ == raw,
            },
    {
        let this = match Context::new(status, raw) {
            Ok(c) => c,
            Err(e) => {
                return Err(e);
            },
        };
        let mut i: usize = 0;
        assert(statuses@.skip(0) =~= statuses@);
        while i < statuses.len()
            invariant
                status == 0,
                this@ == raw,
                i <= statuses@.len(),
                first_failure(statuses@) == first_failure(statuses@.skip(i as int)),
            decreases statuses@.len() - i,
        {
            assert(statuses@.skip(i as int).skip(1) =~= statuses@.skip(i + 1));
            match check_status(statuses[i]) {
                Ok(()) => {},
                Err(e) => {
                    return Err(e);
                },
            }
            i = i + 1;
        }
        Ok(this)
    }

    /// Whether the context is the global one: the one with the identity zero.
    pub open spec fn spec_is_global(self) -> bool {
        self@ == 0
    }

    /// Gets the global context.
    pub fn global() -> (c: Context)
        ensures
            c@ == 0,
            c.spec_is_global(),
    {
        Context { raw: 0 }
    }

    /// Determines if this object is a reference the global context.
    pub fn is_global(&self) -> (r: bool)
        ensures
            r == self.spec_is_global(),
    {
        self.raw == 0
    }

    /// Starts the count of the holders of the native instance, with this
    /// context as the first. The instance is closed when the last holder
    /// lets go, unless it is the global one.
    pub fn share(&self) -> (s: Shared)
        ensures
            s@ == (SharedView { raw: self@, holders: 1 }),
    {
        Shared::new(self.raw)
    }

    /// Makes a context from the address of an existing native instance.
    pub fn from_raw(raw: usize) -> (c: Context)
        ensures
            c@ == raw,
    {
        Context { raw }
    }

    /// Gets the address of the native instance.
    pub fn as_raw(&self) -> (raw: usize)
        ensures
            raw == self@,
    {
        self.raw
    }

    /// Makes the list of the current USB devices from the records that the
    /// native enumeration gave.
    pub fn devices(&self, records: Vec<usize>) -> (list: DeviceList)
        ensures
            list@.ctx == *self,
            list@.devs == records@,
    {
        DeviceList::new_with_context(*self, records)
    }

    /// Reads what opening by vendor and product ID returned: a handle, or
    /// nothing where no device was found or it could not be opened.
    pub fn open_device_with_vid_pid(&self, handle: usize) -> (r: Option<DeviceHandle>)
        ensures
            handle == 0 ==> r is None,
            handle != 0 ==> r is Some && r->0@ == (*self, handle),
    {
        if handle == 0 {
            None
        } else {
            Some(DeviceHandle::from_libusb(*self, handle))
        }
    }

    /// Reads what wrapping an open file descriptor returned: the error of a
    /// status that is not zero; `NoDevice` where the status is zero and there
    /// is no handle; else the handle.
    pub fn open_device_with_fd(&self, status: i32, handle: usize) -> (r: Result<
        DeviceHandle,
        Error,
    >)
        ensures
            status != 0 ==> r == Err::<DeviceHandle, Error>(error_of_code(status as int)),
            status == 0 && handle == 0 ==> r == Err::<DeviceHandle, Error>(Error::NoDevice),
            status == 0 && handle != 0 ==> r is Ok && r->Ok_0@ == (*self, handle),
    {
        if status != 0 {
            Err(Error::from(status))
        } else if handle == 0 {
            Err(Error::NoDevice)
        } else {
            Ok(DeviceHandle::from_libusb(*self, handle))
        }
    }

    /// Gets the native level to set for a log level.
    pub fn set_log_level(&self, level: LogLevel) -> (n: i32)
        ensures
            n == level.rank(),
    {
        level.as_c_int()
    }

    /// Makes the hotplug subscription for discrete optional filters. Each
    /// filter that is `None` leaves that axis unfiltered; devices that are
    /// already present are not announced.
    pub fn register_callback(
        &self,
        vendor_id: Option<u16>,
        product_id: Option<u16>,
        class: Option<u8>,
    ) -> (b: HotplugBuilder)
        ensures
            b.vendor == vendor_id,
            b.product == product_id,
            b.dev_class == class,
            !b.enumerate,
    {
        let mut builder = HotplugBuilder::new();
        if let Some(vendor_id) = vendor_id {
            builder = builder.vendor_id(vendor_id);
        }
        if let Some(product_id) = product_id {
            builder = builder.product_id(product_id);
        }
        if let Some(class) = class {
            builder = builder.class(class);
        }
        builder
    }

    /// Asks for a registration to end. The result is the native token to
    /// deregister, or `None` where that had been asked for before.
    pub fn unregister_callback<H>(&self, reg: &mut Registration<H>) -> (token: Option<i32>)
        ensures
            token == old(reg)@.due(),
            final(reg)@ == old(reg)@.ended(),
            final(reg).handler() == old(reg).handler(),
    {
        reg.unregister()
    }

    /// Tells how long a round of event handling waits for the given timeout.
    pub fn event_wait(timeout: Option<Timeout>) -> (w: EventWait)
        ensures
            w == event_wait_of(timeout),
            w == EventWait::Timed(Timeval { tv_sec: 0, tv_usec: 0 }) <==> timeout is Some
                && timeout->0.secs == 0 && timeout->0.subsec_nanos < 1000,
    {
        match timeout {
            None => EventWait::Blocking,
            Some(t) => EventWait::Timed(timeval_from(t)),
        }
    }

    /// Reads what a round of event handling returned.
    pub fn handle_events(&self, n: i32) -> (r: Result<(), Error>)
        ensures
            r == events_outcome(n as int),
    {
        if n < 0 {
            Err(Error::from(n))
        } else {
            Ok(())
        }
    }

    /// Reads what the query for the next internal timeout returned.
    pub fn next_timeout(&self, n: i32, tv: Timeval) -> (r: Result<Option<Timeout>, Error>)
        requires
            n > 0 ==> is_normal(tv),
        ensures
            r == next_timeout_outcome(n as int, tv),
    {
        if n == 0 {
            Ok(None)
        } else if n < 0 {
            Err(Error::from(n))
        } else {
            Ok(Some(Timeout { secs: tv.tv_sec as u64, subsec_nanos: (tv.tv_usec * 1000) as u32 }))
        }
    }
}

impl Default for Context {
    /// The global context.
    fn default() -> (c: Context)
        ensures
            c@ == 0,
    {
        Context::global()
    }
}

} // verus!
