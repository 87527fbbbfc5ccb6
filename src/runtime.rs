//! The invocation driver: binds a request to a fresh context against the
//! active module, and replaces the active module while traffic is served.
use vstd::prelude::*;
use vstd::rwlock::RwLock;

use crate::context::Context;
use crate::engine::{accept_linked, linkage_verdict, is_extension, CompileError, ExecutionEngine, Linkage, Module};
use crate::request::Request;
use crate::resolution::RuntimeFault;
use crate::slot::{ActiveSlot, ExtensionSlot};

verus! {

/// The runtime shared by all invocations: the engine and the active slot
/// behind a reader/writer lock. Any number of invocations read the slot at
/// once; a swap waits for exclusive access.
pub struct Runtime {
    engine: ExecutionEngine,
    slot: RwLock<ActiveSlot, ExtensionSlot>,
}

impl Runtime {
    /// A runtime over `engine` whose first active module is
    /// `default_proxy`, linkage_verdict only where the host's linkage accepted it
    /// (`linkage`); otherwise the linkage's refusal.
    pub fn new(engine: ExecutionEngine, default_proxy: Module, linkage: Linkage) -> (r: Result<
        Runtime,
        RuntimeFault,
    >)
        ensures
            r is Ok <==> linkage.imports is Ok && linkage.entry_type is Ok,
            r matches Err(f) ==> (f matches RuntimeFault::Compile(e) && linkage_verdict(
                Err(e),
                default_proxy@,
                linkage,
            )),
    {
        let module = match accept_linked(default_proxy, linkage) {
            Ok(m) => m,
            Err(e) => return Err(RuntimeFault::Compile(e)),
        };
        let slot = RwLock::new(ActiveSlot::new(module), Ghost(ExtensionSlot));
        Ok(Runtime { engine, slot })
    }

    /// Compiles candidate bytes with the runtime's engine; the slot is not
    /// touched. See `ExecutionEngine::compile`.
    pub fn compile(&self, bytes: &[u8]) -> (r: Result<Module, CompileError>)
        ensures
            r is Ok <==> is_extension(bytes@),
            r matches Ok(m) ==> m@ == bytes@,
    {
        self.engine.compile(bytes)
    }

    /// The engine, for building the capability linkage.
    pub fn engine(&self) -> &ExecutionEngine {
        &self.engine
    }

    /// Borrows the active module for one invocation. The read lock is held
    /// only while the module is taken out whole.
    pub fn active_module(&self) -> (m: Module)
        ensures
            is_extension(m@),
    {
        let handle = self.slot.acquire_read();
        let module = handle.borrow().read();
        handle.release_read();
        module
    }

    /// Starts an invocation: the active module, and a fresh context with
    /// `request` bound as current.
    pub fn begin(&self, request: Request) -> (r: (Module, Context))
        ensures
            is_extension(r.0@),
            r.1@ == request@,
    {
        let module = self.active_module();
        (module, Context::new(request))
    }

    /// Hot swap: makes `module` the active module where the host's
    /// linkage accepted it; on a refusal the slot is not touched. Together
    /// with `compile`, a swap succeeds exactly on extension bytes whose
    /// imports the linkage meets and whose entry point is well typed.
    pub fn set_proxy(&self, module: Module, linkage: Linkage) -> (r: Result<(), RuntimeFault>)
        ensures
            r is Ok <==> linkage.imports is Ok && linkage.entry_type is Ok,
            r matches Err(f) ==> (f matches RuntimeFault::Compile(e) && linkage_verdict(
                Err(e),
                module@,
                linkage,
            )),
    {
        let module = match accept_linked(module, linkage) {
            Ok(m) => m,
            Err(e) => return Err(RuntimeFault::Compile(e)),
        };
        let (mut slot, handle) = self.slot.acquire_write();
        slot.swap(module);
        handle.release_write(slot);
        Ok(())
    }
}

} // verus!
