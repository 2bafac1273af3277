//! The context that holds what a delivery to the host needs, and the
//! marshalling of one log event into a call of the host's log method.

use vstd::prelude::*;
use crate::level::Level;
use crate::util::exec_callback;

verus! {

/// Name of the host method that takes a log event.
pub const ON_LOG_METHOD_NAME: &'static str = "onLog";

/// Type signature of that method: a string, a byte and a string go in,
/// nothing comes back.
pub const ON_LOG_METHOD_SIGNATURE: &'static str = "(Ljava/lang/String;BLjava/lang/String;)V";

/// One call of the host's log method, ready to be made.
pub struct HostCall<'a> {
    pub method: &'static str,
    pub signature: &'static str,
    pub category: &'a str,
    pub level: i8,
    pub message: &'a str,
}

/// The signed byte with the bit pattern of `level`, as the host takes it.
pub open spec fn byte_of(level: u8) -> i8 {
    if level < 128 {
        level as i8
    } else {
        (level - 256) as i8
    }
}

/// The call that delivers an event with the given category, level code and
/// message.
pub open spec fn host_call_of<'a>(category: &'a str, level: u8, message: &'a str) -> HostCall<'a> {
    HostCall {
        method: ON_LOG_METHOD_NAME,
        signature: ON_LOG_METHOD_SIGNATURE,
        category,
        level: byte_of(level),
        message,
    }
}

/// Marshals one log event for the host.
pub fn host_call<'a>(category: &'a str, level: u8, message: &'a str) -> (call: HostCall<'a>)
    ensures
        call == host_call_of(category, level, message),
{
    let byte: i8 = if level < 128 {
        level as i8
    } else {
        (level as i16 - 256) as i8
    };
    HostCall {
        method: ON_LOG_METHOD_NAME,
        signature: ON_LOG_METHOD_SIGNATURE,
        category,
        level: byte,
        message,
    }
}

/// What a delivery needs of the host: a handle to its virtual machine and a
/// durable reference to the callback object that was registered. Both are
/// fixed when the context is made and are released with it.
pub struct LogCallbackCtx<V, R> {
    jvm: V,
    cb_ref: R,
}

impl<V, R> LogCallbackCtx<V, R> {
    /// The handle to the virtual machine.
    pub closed spec fn vm(self) -> V {
        self.jvm
    }

    /// The reference to the callback object.
    pub closed spec fn callback(self) -> R {
        self.cb_ref
    }

    /// Makes the context of a callback object that the host registered.
    pub fn new(jvm: V, cb_ref: R) -> (ctx: Self)
        ensures
            ctx.vm() == jvm,
            ctx.callback() == cb_ref,
    {
        LogCallbackCtx { jvm, cb_ref }
    }

    /// The handle to the virtual machine.
    pub fn jvm(&self) -> (jvm: &V)
        ensures
            *jvm == self.vm(),
    {
        &self.jvm
    }

    /// The reference to the callback object.
    pub fn cb_ref(&self) -> (cb_ref: &R)
        ensures
            *cb_ref == self.callback(),
    {
        &self.cb_ref
    }

    /// The code of a severity on the wire.
    pub fn level_to_u8(level: Level) -> (code: u8)
        ensures
            code == level.code(),
    {
        match level {
            Level::Error => 1,
            Level::Warn => 2,
            Level::Info => 3,
            Level::Debug => 4,
            Level::Trace => 5,
        }
    }

    /// Delivers one log event through `deliver`, which makes the call on
    /// the host with the handles of this context. A failure of `deliver`
    /// ends here: it is handed back as a value for the fallback output.
    pub fn on_log_message_impl<'a, E, F>(
        &self,
        category: &'a str,
        level: u8,
        message: &'a str,
        deliver: F,
    ) -> (failure: Option<E>) where F: FnOnce(&V, &R, HostCall<'a>) -> Result<(), E>
        requires
            deliver.requires((&self.vm(), &self.callback(), host_call_of(category, level, message))),
        ensures
            match failure {
                Some(e) => deliver.ensures(
                    (&self.vm(), &self.callback(), host_call_of(category, level, message)),
                    Err(e),
                ),
                None => deliver.ensures(
                    (&self.vm(), &self.callback(), host_call_of(category, level, message)),
                    Ok(()),
                ),
            },
    {
        let call = host_call(category, level, message);
        let jvm = &self.jvm;
        let cb_ref = &self.cb_ref;
        let work = move || -> (outcome: Result<(), E>)
            requires
                deliver.requires((jvm, cb_ref, call)),
            ensures
                deliver.ensures((jvm, cb_ref, call), outcome),
            {
                deliver(jvm, cb_ref, call)
            };
        exec_callback(work)
    }
}

} // verus!
