//! Hotplug subscriptions: what is asked of the native library, how its
//! events are read, and the life of a registration.

use crate::context::Context;
use crate::error::{error_of_code, Error};
use vstd::prelude::*;

verus! {

/// The native value of a filter that matches anything.
pub const MATCH_ANY: i32 = -1;

/// The native flag that asks for present devices to be announced.
pub const FLAG_ENUMERATE: i32 = 1;

/// The native event of a device that has arrived.
pub const EVENT_DEVICE_ARRIVED: i32 = 0x01;

/// The native event of a device that has left.
pub const EVENT_DEVICE_LEFT: i32 = 0x02;

/// What happened to a device.
#[derive(Debug, Clone, Copy, PartialEq, Eq, Structural)]
pub enum HotplugEvent {
    /// The device has arrived: the handler's `device_arrived` is due.
    Arrived,
    /// The device has left: the handler's `device_left` is due.
    Left,
}

impl HotplugEvent {
    /// The event that a native event code stands for, if any.
    pub open spec fn of_native(event: int) -> Option<HotplugEvent> {
        if event == 1 {
            Some(HotplugEvent::Arrived)
        } else if event == 2 {
            Some(HotplugEvent::Left)
        } else {
            None
        }
    }

    /// Reads a native event code. A code that is neither arrival nor
    /// departure calls for no handler.
    pub fn from_native(event: i32) -> (r: Option<HotplugEvent>)
        ensures
            r == HotplugEvent::of_native(event as int),
    {
        match event {
            EVENT_DEVICE_ARRIVED => Some(HotplugEvent::Arrived),
            EVENT_DEVICE_LEFT => Some(HotplugEvent::Left),
            _ => None,
        }
    }
}

/// What a subscription asks of the native library.
#[derive(Debug, Clone, Copy, PartialEq, Eq, Structural)]
pub struct HotplugRequest {
    /// The events to be told of: arrival and departure.
    pub events: i32,
    /// The flags of the subscription.
    pub flags: i32,
    /// The vendor ID to match, or `MATCH_ANY`.
    pub vendor_id: i32,
    /// The product ID to match, or `MATCH_ANY`.
    pub product_id: i32,
    /// The device class to match, or `MATCH_ANY`.
    pub dev_class: i32,
}

/// Builds hotplug subscriptions. Each filter that is not set matches any
/// device.
#[derive(Debug, Clone, Copy, PartialEq, Eq, Structural)]
pub struct HotplugBuilder {
    /// The vendor ID to match, if any.
    pub vendor: Option<u16>,
    /// The product ID to match, if any.
    pub product: Option<u16>,
    /// The device class to match, if any.
    pub dev_class: Option<u8>,
    /// Whether devices that are present already are announced as arrived.
    pub enumerate: bool,
}

impl HotplugBuilder {
    /// What the builder asks of the native library.
    pub open spec fn request_of(self) -> HotplugRequest {
        HotplugRequest {
            events: 3,
            flags: if self.enumerate {
                1
            } else {
                0
            },
            vendor_id: match self.vendor {
                Some(v) => v as i32,
                None => MATCH_ANY,
            },
            product_id: match self.product {
                Some(p) => p as i32,
                None => MATCH_ANY,
            },
            dev_class: match self.dev_class {
                Some(c) => c as i32,
                None => MATCH_ANY,
            },
        }
    }

    /// Returns a builder without filters that does not announce present devices.
    pub fn new() -> (b: HotplugBuilder)
        ensures
            b == (HotplugBuilder { vendor: None, product: None, dev_class: None, enumerate: false }),
    {
        HotplugBuilder { vendor: None, product: None, dev_class: None, enumerate: false }
    }

    /// Matches devices of this vendor only.
    pub fn vendor_id(self, vendor_id: u16) -> (b: HotplugBuilder)
        ensures
            b == (HotplugBuilder { vendor: Some(vendor_id), ..self }),
    {
        HotplugBuilder { vendor: Some(vendor_id), ..self }
    }

    /// Matches devices with this product ID only.
    pub fn product_id(self, product_id: u16) -> (b: HotplugBuilder)
        ensures
            b == (HotplugBuilder { product: Some(product_id), ..self }),
    {
        HotplugBuilder { product: Some(product_id), ..self }
    }

    /// Matches devices of this class only.
    pub fn class(self, class: u8) -> (b: HotplugBuilder)
        ensures
            b == (HotplugBuilder { dev_class: Some(class), ..self }),
    {
        HotplugBuilder { dev_class: Some(class), ..self }
    }

    /// Sets whether devices that are present already are announced.
    pub fn enumerate(self, enumerate: bool) -> (b: HotplugBuilder)
        ensures
            b == (HotplugBuilder { enumerate, ..self }),
    {
        HotplugBuilder { enumerate, ..self }
    }

    /// Gets what to ask of the native library.
    pub fn request(&self) -> (r: HotplugRequest)
        ensures
            r == self.request_of(),
    {
        let flags: i32 = if self.enumerate {
            FLAG_ENUMERATE
        } else {
            0
        };
        let vendor_id: i32 = match self.vendor {
            Some(v) => v as i32,
            None => MATCH_ANY,
        };
        let product_id: i32 = match self.product {
            Some(p) => p as i32,
            None => MATCH_ANY,
        };
        let dev_class: i32 = match self.dev_class {
            Some(c) => c as i32,
            None => MATCH_ANY,
        };
        assert(0x01i32 | 0x02i32 == 3) by (bit_vector);
        HotplugRequest {
            events: EVENT_DEVICE_ARRIVED | EVENT_DEVICE_LEFT,
            flags,
            vendor_id,
            product_id,
            dev_class,
        }
    }

    /// Reads what the native registration of a handler returned. A negative
    /// status is its error: where the library has no hotplug support, that
    /// is `NotSupported`; nothing is registered and the handler is let go
    /// of. Else the callback is registered, and the registration holds its
    /// token and owns the handler.
    pub fn register<H>(&self, context: Context, status: i32, token: i32, handler: H) -> (r: Result<
        Registration<H>,
        Error,
    >)
        ensures
            status < 0 ==> r is Err && r->Err_0 == error_of_code(status as int),
            status >= 0 ==> r is Ok && r->Ok_0@ == (RegistrationView {
                context,
                token,
                state: RegistrationState::Registered,
            }) && r->Ok_0.handler() == Some(handler),
    {
        if status < 0 {
            Err(Error::from(status))
        } else {
            Ok(
                Registration {
                    context,
                    token,
                    state: RegistrationState::Registered,
                    handler: Some(handler),
                },
            )
        }
    }
}

/// Where a registration stands in its life.
#[derive(Debug, Clone, Copy, PartialEq, Eq, Structural)]
pub enum RegistrationState {
    /// The callback is registered and events are delivered to the handler.
    Registered,
    /// Unregistration has been asked for: the native deregistration, which
    /// waits for a callback that is running, is under way.
    Unregistering,
    /// The callback is deregistered and the handler released. This is final.
    Unregistered,
}

/// What a registration holds, but for the handler.
#[derive(Debug, Clone, Copy, PartialEq, Eq, Structural)]
pub struct RegistrationView {
    /// The context that the callback is registered with.
    pub context: Context,
    /// The native token of the registration.
    pub token: i32,
    /// Where the registration stands in its life.
    pub state: RegistrationState,
}

/// One callback subscription against a context. It owns the handler from
/// the registration until the native deregistration has returned, and
/// gives it back then, once.
#[derive(Debug)]
pub struct Registration<H> {
    context: Context,
    token: i32,
    state: RegistrationState,
    handler: Option<H>,
}

impl<H> View for Registration<H> {
    type V = RegistrationView;

    closed spec fn view(&self) -> RegistrationView {
        RegistrationView { context: self.context, token: self.token, state: self.state }
    }
}

/// A step in the life of a registration.
#[derive(Debug, Clone, Copy, PartialEq, Eq, Structural)]
pub enum RegistrationStep {
    /// Unregistration is asked for, explicitly or by dropping.
    Unregister,
    /// The native deregistration has returned.
    Deregistered,
}

impl RegistrationView {
    /// The token to deregister now, where unregistration is asked for: that
    /// of a registered callback, and nothing otherwise.
    pub open spec fn due(self) -> Option<i32> {
        if self.state == RegistrationState::Registered {
            Some(self.token)
        } else {
            None
        }
    }

    /// The registration after unregistration has been asked for.
    pub open spec fn ended(self) -> RegistrationView {
        if self.state == RegistrationState::Registered {
            RegistrationView { state: RegistrationState::Unregistering, ..self }
        } else {
            self
        }
    }

    /// Whether the handler is to be released when the native
    /// deregistration returns.
    pub open spec fn releases(self) -> bool {
        self.state == RegistrationState::Unregistering
    }

    /// The registration after the native deregistration has returned.
    pub open spec fn finished(self) -> RegistrationView {
        if self.state == RegistrationState::Unregistering {
            RegistrationView { state: RegistrationState::Unregistered, ..self }
        } else {
            self
        }
    }

    /// The registration after a step.
    pub open spec fn after(self, step: RegistrationStep) -> RegistrationView {
        match step {
            RegistrationStep::Unregister => self.ended(),
            RegistrationStep::Deregistered => self.finished(),
        }
    }

    /// The registration after a sequence of steps.
    pub open spec fn after_all(self, steps: Seq<RegistrationStep>) -> RegistrationView
        decreases steps.len(),
    {
        if steps.len() == 0 {
            self
        } else {
            self.after_all(steps.drop_last()).after(steps.last())
        }
    }

    /// How often a sequence of steps had the callback deregistered natively.
    pub open spec fn deregistrations(self, steps: Seq<RegistrationStep>) -> nat
        decreases steps.len(),
    {
        if steps.len() == 0 {
            0
        } else {
            let before = self.after_all(steps.drop_last());
            let now: nat = if steps.last() == RegistrationStep::Unregister && before.due() is Some {
                1
            } else {
                0
            };
            self.deregistrations(steps.drop_last()) + now
        }
    }

    /// How often a sequence of steps had the handler released.
    pub open spec fn releases_in(self, steps: Seq<RegistrationStep>) -> nat
        decreases steps.len(),
    {
        if steps.len() == 0 {
            0
        } else {
            let before = self.after_all(steps.drop_last());
            let now: nat = if steps.last() == RegistrationStep::Deregistered && before.releases() {
                1
            } else {
                0
            };
            self.releases_in(steps.drop_last()) + now
        }
    }
}

impl<H> Registration<H> {
    #[verifier::type_invariant]
    spec fn well_formed(self) -> bool {
        self.handler is Some <==> self.state != RegistrationState::Unregistered
    }

    /// The handler that the registration owns, if it still owns one.
    pub closed spec fn handler(self) -> Option<H> {
        self.handler
    }

    /// Tells where the registration stands.
    pub fn state(&self) -> (s: RegistrationState)
        ensures
            s == self@.state,
            self.handler() is Some <==> s != RegistrationState::Unregistered,
    {
        proof {
            use_type_invariant(self);
        }
        self.state
    }

    /// Gets the native token of the registration.
    pub fn token(&self) -> (t: i32)
        ensures
            t == self@.token,
    {
        self.token
    }

    /// Gets the context that the callback is registered with.
    pub fn context(&self) -> (c: Context)
        ensures
            c == self@.context,
    {
        self.context
    }

    /// Reads a native event for this registration: the handler method that
    /// is due, or `None` where the callback is no longer registered or the
    /// event is neither arrival nor departure. Each native call of the
    /// callback so gives at most one call of the handler.
    pub fn dispatch(&self, event: i32) -> (r: Option<HotplugEvent>)
        ensures
            self@.state == RegistrationState::Registered ==> r == HotplugEvent::of_native(
                event as int,
            ),
            self@.state != RegistrationState::Registered ==> r is None,
    {
        match self.state {
            RegistrationState::Registered => HotplugEvent::from_native(event),
            _ => None,
        }
    }

    /// Asks for the registration to end. For a registered callback the
    /// result is the token: the callback is to be deregistered natively,
    /// which waits for a callback that is running. Every other call returns
    /// `None` and changes nothing. The handler stays with the registration.
    pub fn unregister(&mut self) -> (token: Option<i32>)
        ensures
            token == old(self)@.due(),
            final(self)@ == old(self)@.ended(),
            final(self).handler() == old(self).handler(),
    {
        proof {
            use_type_invariant(&*self);
        }
        match self.state {
            RegistrationState::Registered => {
                self.state = RegistrationState::Unregistering;
                Some(self.token)
            },
            _ => None,
        }
    }

    /// Records that the native deregistration has returned. Where
    /// unregistration was under way the result is the handler, which the
    /// registration owns no longer: it is to be released now. Every other
    /// call returns `None` and changes nothing.
    pub fn deregistered(&mut self) -> (released: Option<H>)
        ensures
            final(self)@ == old(self)@.finished(),
            old(self)@.releases() ==> released is Some && released == old(self).handler()
                && final(self).handler() is None,
            !old(self)@.releases() ==> released is None && final(self).handler() == old(
                self,
            ).handler(),
    {
        proof {
            use_type_invariant(&*self);
        }
        match self.state {
            RegistrationState::Unregistering => {
                let mut ended = Registration {
                    context: self.context,
                    token: self.token,
                    state: RegistrationState::Unregistered,
                    handler: None,
                };
                core::mem::swap(&mut ended, self);
                ended.handler
            },
            _ => None,
        }
    }
}

/// Unregistering is idempotent: asking a second time returns no token and
/// changes nothing, and so does a second report that the deregistration
/// has returned.
pub proof fn lemma_unregister_idempotent(reg: RegistrationView)
    ensures
        reg.state == RegistrationState::Registered ==> reg.due() == Some(reg.token),
        reg.ended().due() is None,
        reg.ended().ended() == reg.ended(),
        !reg.finished().releases(),
        reg.finished().finished() == reg.finished(),
        reg.ended().finished().state == RegistrationState::Unregistered
            || reg.state == RegistrationState::Unregistered,
{
}

/// Whatever steps are taken on a registration, in whatever order and however
/// often, the callback is deregistered natively at most once and the
/// handler is released at most once, never before the deregistration. Once
/// the registration has reached its final state, a registered callback has
/// had both, exactly once.
pub proof fn lemma_released_exactly_once(reg: RegistrationView, steps: Seq<RegistrationStep>)
    ensures
        reg.deregistrations(steps) <= 1,
        reg.releases_in(steps) <= reg.deregistrations(steps) + (if reg.state
            == RegistrationState::Unregistering {
            1nat
        } else {
            0nat
        }),
        reg.releases_in(steps) <= 1,
        reg.state == RegistrationState::Registered ==> {
            &&& reg.after_all(steps).state == RegistrationState::Registered
                <==> reg.deregistrations(steps) == 0
            &&& reg.after_all(steps).state == RegistrationState::Unregistered
                <==> reg.releases_in(steps) == 1
            &&& reg.after_all(steps).state == RegistrationState::Unregistered
                ==> reg.deregistrations(steps) == 1
        },
        reg.state == RegistrationState::Unregistering ==> {
            &&& reg.deregistrations(steps) == 0
            &&& reg.after_all(steps).state != RegistrationState::Registered
            &&& reg.after_all(steps).state == RegistrationState::Unregistered
                <==> reg.releases_in(steps) == 1
        },
        reg.state == RegistrationState::Unregistered ==> reg.deregistrations(steps) == 0
            && reg.releases_in(steps) == 0 && reg.after_all(steps) == reg,
        reg.after_all(steps).token == reg.token,
        reg.after_all(steps).context == reg.context,
    decreases steps.len(),
{
    if steps.len() > 0 {
        lemma_released_exactly_once(reg, steps.drop_last());
    }
}

/// A subscription made from discrete optional filters asks for the same as
/// one built step by step: a filter that is `None` matches anything on its
/// axis, one that is set is asked for as it is, and nothing else depends on it.
pub proof fn lemma_filter_semantics(b: HotplugBuilder)
    ensures
        b.vendor is None <==> b.request_of().vendor_id == MATCH_ANY,
        b.product is None <==> b.request_of().product_id == MATCH_ANY,
        b.dev_class is None <==> b.request_of().dev_class == MATCH_ANY,
        b.vendor is Some ==> b.request_of().vendor_id == b.vendor->0,
        b.product is Some ==> b.request_of().product_id == b.product->0,
        b.dev_class is Some ==> b.request_of().dev_class == b.dev_class->0,
        b.enumerate <==> b.request_of().flags == FLAG_ENUMERATE,
{
}

} // verus!
