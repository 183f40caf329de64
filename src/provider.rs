use vstd::prelude::*;
use crate::codec::{decode_config, decoded_config};
use crate::config::{host_of, port_of, ListenerConfig};
use crate::frame::{check_nesting, nesting_within_limit};
use crate::registry::ListenerRegistry;

verus! {

/// Capability id under which the provider registers with the host.
pub const CAPABILITY_ID: &'static str = "wascc:http_server";

/// Human-readable name of the provider.
pub const PROVIDER_NAME: &'static str = "waSCC Default HTTP Server (Actix Web)";

/// Origin that stands for the host runtime itself, the one caller allowed to
/// start or stop listeners.
pub const SYSTEM_ORIGIN: &'static str = "system";

/// Operation that asks for a listener to be started for a module.
pub const OP_BIND_ACTOR: &'static str = "BindActor";

/// Operation that asks for a module's listener to be stopped.
pub const OP_REMOVE_ACTOR: &'static str = "RemoveActor";

/// Prefix of the error text for a call that is not honoured.
pub const UNKNOWN_OPERATION_PREFIX: &'static str = "Unknown operation: ";

/// Error text for a payload whose arrays and maps nest too deep.
pub const NESTING_ERROR: &'static str = "Failed to de-serialize: nesting too deep";

/// Why a call from the host was refused.
pub enum ProviderError {
    /// The operation is unknown, or its origin may not ask for it.
    UnknownOperation(String),
    /// The call's payload holds no capability configuration.
    Decode(String),
}

impl ProviderError {
    /// The error's text.
    pub fn message(&self) -> (r: String)
        ensures
            match self {
                ProviderError::UnknownOperation(op) => r@ == UNKNOWN_OPERATION_PREFIX@ + op@,
                ProviderError::Decode(m) => r@ == m@,
            },
    {
        match self {
            ProviderError::UnknownOperation(op) => UNKNOWN_OPERATION_PREFIX.to_owned().concat(
                op.as_str(),
            ),
            ProviderError::Decode(m) => m.clone(),
        }
    }
}

/// What a call from the host asks for.
pub enum LifecycleCommand {
    /// Start a listener with these settings.
    Start(ListenerConfig),
    /// Stop the listener of this module.
    Stop(String),
}

/// What is left to do, outside the registry, once a call has been handled.
pub enum LifecycleAction<H> {
    /// Bind a listener with these settings; register it once the bind
    /// succeeded.
    Bind(ListenerConfig),
    /// Shut down this listener, which has left the registry.
    Shutdown(H),
    /// The module had no listener: nothing to do.
    NotRunning(String),
}

/// What a call's payload decodes to as a configuration, where its nesting is
/// within the limit; `None` where it does not decode or nests too deep.
pub open spec fn accepted_config(msg: Seq<u8>) -> Option<(Seq<char>, Map<Seq<char>, Seq<char>>)> {
    if nesting_within_limit(msg) {
        decoded_config(msg)
    } else {
        None
    }
}

/// Whether `origin` is the host runtime itself.
pub open spec fn is_trusted(origin: Seq<char>) -> bool {
    origin == SYSTEM_ORIGIN@
}

/// Whether a call is a bind from the host runtime.
pub open spec fn is_bind(origin: Seq<char>, op: Seq<char>) -> bool {
    is_trusted(origin) && op == OP_BIND_ACTOR@
}

/// Whether a call is an unbind from the host runtime.
pub open spec fn is_unbind(origin: Seq<char>, op: Seq<char>) -> bool {
    is_trusted(origin) && op == OP_REMOVE_ACTOR@
}

/// The refusal of a call that is neither a bind nor an unbind from the host
/// runtime: it names the operation.
pub open spec fn is_refusal<T>(r: Result<T, ProviderError>, op: Seq<char>) -> bool {
    r matches Err(ProviderError::UnknownOperation(o)) && o@ == op
}

fn same_text(a: &str, b: &str) -> (r: bool)
    ensures
        r == (a@ == b@),
{
    a.to_owned() == b.to_owned()
}

/// Decides what a call from the host asks for. Only the host runtime may
/// start or stop listeners; any other origin, and any other operation, is
/// refused with an error that names the operation.
pub fn route_call(origin: &str, op: &str, msg: &[u8]) -> (r: Result<LifecycleCommand, ProviderError>)
    ensures
        is_bind(origin@, op@) ==> match accepted_config(msg@) {
            Some((module, values)) => r matches Ok(LifecycleCommand::Start(c)) && c.module@ == module
                && c.host@ == host_of(values) && c.port@ == port_of(values),
            None => r matches Err(ProviderError::Decode(_)),
        },
        is_unbind(origin@, op@) ==> match accepted_config(msg@) {
            Some((module, _)) => r matches Ok(LifecycleCommand::Stop(m)) && m@ == module,
            None => r matches Err(ProviderError::Decode(_)),
        },
        !is_bind(origin@, op@) && !is_unbind(origin@, op@) ==> is_refusal(r, op@),
{
    let trusted = same_text(origin, SYSTEM_ORIGIN);
    let bind = trusted && same_text(op, OP_BIND_ACTOR);
    let unbind = trusted && same_text(op, OP_REMOVE_ACTOR);
    proof {
        reveal_strlit("BindActor");
        reveal_strlit("RemoveActor");
        assert(OP_BIND_ACTOR@[0] != OP_REMOVE_ACTOR@[0]);
    }
    if bind || unbind {
        if !check_nesting(msg) {
            return Err(ProviderError::Decode(NESTING_ERROR.to_owned()));
        }
        match decode_config(msg) {
            Ok((module, values)) => {
                if bind {
                    Ok(LifecycleCommand::Start(ListenerConfig::from_values(module, &values)))
                } else {
                    Ok(LifecycleCommand::Stop(module))
                }
            },
            Err(e) => Err(ProviderError::Decode(e)),
        }
    } else {
        Err(ProviderError::UnknownOperation(op.to_owned()))
    }
}

/// Handles a call from the host against the registry of running listeners.
/// A bind leaves the registry as it is: the listener enters it only once its
/// bind succeeded. An unbind takes the module's entry out and hands its
/// listener back for shutdown; for a module with no entry it changes
/// nothing. A refused call changes nothing.
pub fn handle_call<H>(
    registry: &mut ListenerRegistry<H>,
    origin: &str,
    op: &str,
    msg: &[u8],
) -> (r: Result<LifecycleAction<H>, ProviderError>)
    requires
        old(registry).wf(),
    ensures
        final(registry).wf(),
        is_bind(origin@, op@) ==> *final(registry) == *old(registry) && match accepted_config(
            msg@,
        ) {
            Some((module, values)) => r matches Ok(LifecycleAction::Bind(c)) && c.module@ == module
                && c.host@ == host_of(values) && c.port@ == port_of(values),
            None => r matches Err(ProviderError::Decode(_)),
        },
        is_unbind(origin@, op@) ==> match accepted_config(msg@) {
            Some((module, _)) => {
                &&& final(registry)@ == old(registry)@.remove(module)
                &&& if old(registry)@.contains_key(module) {
                    r matches Ok(LifecycleAction::Shutdown(h)) && h == old(registry)@[module]
                } else {
                    &&& *final(registry) == *old(registry)
                    &&& r matches Ok(LifecycleAction::NotRunning(m)) && m@ == module
                }
            },
            None => *final(registry) == *old(registry) && r matches Err(ProviderError::Decode(_)),
        },
        !is_bind(origin@, op@) && !is_unbind(origin@, op@) ==> *final(registry) == *old(registry)
            && is_refusal(r, op@),
{
    match route_call(origin, op, msg) {
        Ok(LifecycleCommand::Start(config)) => Ok(LifecycleAction::Bind(config)),
        Ok(LifecycleCommand::Stop(module)) => match registry.remove(&module) {
            Some(handle) => Ok(LifecycleAction::Shutdown(handle)),
            None => Ok(LifecycleAction::NotRunning(module)),
        },
        Err(e) => Err(e),
    }
}

} // verus!
