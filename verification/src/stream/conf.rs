//! Locating a module's configuration in the stream configuration contexts.
//!
//! NGINX keeps one array of configuration pointers per level (main, server)
//! and gives every stream module a `ctx_index` into those arrays. Here a
//! pointer is held as its address, `0` standing for null, and each structure
//! that NGINX hands to a module is modelled by the fields that the lookups read.

use vstd::prelude::*;

use crate::base::AllocError;
use crate::stream::module::StreamModule;
use crate::stream::session::{Session, StreamSessionHandler};

verus! {

/// The result of reading a pointer slot: `None` for a null pointer, else its address.
pub open spec fn nonnull_spec(addr: usize) -> Option<usize> {
    if addr == 0 {
        None
    } else {
        Some(addr)
    }
}

/// The slot `i` of a pointer array, read as a non-null pointer.
pub open spec fn slot_spec(table: Seq<usize>, i: int) -> Option<usize> {
    nonnull_spec(table[i])
}

/// Reads slot `i` of a pointer array as a non-null pointer.
pub fn read_slot(table: &Vec<usize>, i: usize) -> (r: Option<usize>)
    requires
        i < table.len(),
    ensures
        r == slot_spec(table@, i as int),
        r matches Some(a) ==> a != 0,
{
    let addr = table[i];
    if addr == 0 {
        None
    } else {
        Some(addr)
    }
}

/// The indices that NGINX assigned to a module (`ngx_module_t`).
#[derive(Clone, Copy, Debug, PartialEq, Eq, Structural)]
pub struct NgxModule {
    /// Index of the module's slots in the configuration arrays of its subsystem.
    pub ctx_index: usize,
    /// Index of the module among all modules, used in the cycle's context array.
    pub index: usize,
}

/// The indices of the modules that this library knows by name: the stream
/// subsystem itself and its core, SSL and upstream modules.
#[derive(Clone, Copy, Debug, PartialEq, Eq, Structural)]
pub struct NgxModules {
    /// `ngx_stream_module`, whose `index` selects the stream context in the cycle.
    pub stream: NgxModule,
    /// `ngx_stream_core_module`.
    pub stream_core: NgxModule,
    /// `ngx_stream_ssl_module`.
    pub stream_ssl: NgxModule,
    /// `ngx_stream_upstream_module`.
    pub stream_upstream: NgxModule,
}

/// The stream configuration context (`ngx_stream_conf_ctx_t`): one pointer
/// per stream module at the main level and at the server level.
#[derive(Debug)]
pub struct StreamConfCtx {
    /// Main-level configuration of each module, by `ctx_index`.
    pub main_conf: Vec<usize>,
    /// Server-level configuration of each module, by `ctx_index`.
    pub srv_conf: Vec<usize>,
}

/// The configuration cycle (`ngx_cycle_t`), as far as the stream lookup reads it.
#[derive(Debug)]
pub struct NgxCycle {
    /// The cycle's array of per-module contexts (`conf_ctx`); `None` when the
    /// array pointer is null, and an entry is `None` when its slot is null.
    pub conf_ctx: Option<Vec<Option<StreamConfCtx>>>,
    /// The `index` of `ngx_stream_module`, whose entry holds the stream context.
    pub stream_index: usize,
}

/// The configuration being parsed (`ngx_conf_t`), as far as the stream lookup
/// reads it: its `ctx`, which is a stream context inside a `stream` block.
#[derive(Debug)]
pub struct NgxConf {
    /// The context pointer; `None` when null.
    pub ctx: Option<StreamConfCtx>,
}

/// The server configuration of the stream core module (`ngx_stream_core_srv_conf_t`).
#[derive(Debug)]
pub struct CoreSrvConf {
    /// The context the server was defined in; `None` when null.
    pub ctx: Option<StreamConfCtx>,
}

/// The server configuration of the stream upstream module (`ngx_stream_upstream_srv_conf_t`).
#[derive(Debug)]
pub struct UpstreamSrvConf {
    /// The upstream block's server-level array (`srv_conf`); `None` when null.
    pub srv_conf: Option<Vec<usize>>,
}

/// Types that hold the main-level stream configuration of every module.
pub trait StreamModuleMainConfExt {
    /// Whether the lookup for `module` stays inside the arrays it reads.
    spec fn main_conf_ready(&self, module: NgxModule) -> bool;

    /// The main-level configuration of `module`: `None` where a pointer on
    /// the way to it is null.
    spec fn main_conf_spec(&self, module: NgxModule) -> Option<usize>;

    /// Gets the address of the main configuration structure of `module`.
    fn stream_main_conf_unchecked(&self, module: &NgxModule) -> (r: Option<usize>)
        requires
            self.main_conf_ready(*module),
        ensures
            r == self.main_conf_spec(*module),
            r matches Some(a) ==> a != 0,
    ;
}

/// Types that hold the server-level stream configuration of every module.
pub trait StreamModuleServerConfExt {
    /// Whether the lookup for `module` stays inside the arrays it reads.
    spec fn server_conf_ready(&self, module: NgxModule) -> bool;

    /// The server-level configuration of `module`: `None` where a pointer on
    /// the way to it is null.
    spec fn server_conf_spec(&self, module: NgxModule) -> Option<usize>;

    /// Gets the address of the server configuration structure of `module`.
    fn stream_server_conf_unchecked(&self, module: &NgxModule) -> (r: Option<usize>)
        requires
            self.server_conf_ready(*module),
        ensures
            r == self.server_conf_spec(*module),
            r matches Some(a) ==> a != 0,
    ;
}

impl StreamModuleMainConfExt for StreamConfCtx {
    open spec fn main_conf_ready(&self, module: NgxModule) -> bool {
        module.ctx_index < self.main_conf.len()
    }

    open spec fn main_conf_spec(&self, module: NgxModule) -> Option<usize> {
        slot_spec(self.main_conf@, module.ctx_index as int)
    }

    fn stream_main_conf_unchecked(&self, module: &NgxModule) -> (r: Option<usize>) {
        read_slot(&self.main_conf, module.ctx_index)
    }
}

impl StreamModuleServerConfExt for StreamConfCtx {
    open spec fn server_conf_ready(&self, module: NgxModule) -> bool {
        module.ctx_index < self.srv_conf.len()
    }

    open spec fn server_conf_spec(&self, module: NgxModule) -> Option<usize> {
        slot_spec(self.srv_conf@, module.ctx_index as int)
    }

    fn stream_server_conf_unchecked(&self, module: &NgxModule) -> (r: Option<usize>) {
        read_slot(&self.srv_conf, module.ctx_index)
    }
}

impl StreamModuleMainConfExt for NgxCycle {
    open spec fn main_conf_ready(&self, module: NgxModule) -> bool {
        match self.conf_ctx {
            None => true,
            Some(table) => {
                &&& self.stream_index < table.len()
                &&& table@[self.stream_index as int] matches Some(ctx) ==> ctx.main_conf_ready(
                    module,
                )
            },
        }
    }

    open spec fn main_conf_spec(&self, module: NgxModule) -> Option<usize> {
        match self.conf_ctx {
            None => None,
            Some(table) => match table@[self.stream_index as int] {
                None => None,
                Some(ctx) => ctx.main_conf_spec(module),
            },
        }
    }

    fn stream_main_conf_unchecked(&self, module: &NgxModule) -> (r: Option<usize>) {
        match &self.conf_ctx {
            None => None,
            Some(table) => match &table[self.stream_index] {
                None => None,
                Some(ctx) => ctx.stream_main_conf_unchecked(module),
            },
        }
    }
}

impl StreamModuleMainConfExt for NgxConf {
    open spec fn main_conf_ready(&self, module: NgxModule) -> bool {
        self.ctx matches Some(ctx) ==> ctx.main_conf_ready(module)
    }

    open spec fn main_conf_spec(&self, module: NgxModule) -> Option<usize> {
        match self.ctx {
            None => None,
            Some(ctx) => ctx.main_conf_spec(module),
        }
    }

    fn stream_main_conf_unchecked(&self, module: &NgxModule) -> (r: Option<usize>) {
        match &self.ctx {
            None => None,
            Some(ctx) => ctx.stream_main_conf_unchecked(module),
        }
    }
}

impl StreamModuleServerConfExt for NgxConf {
    open spec fn server_conf_ready(&self, module: NgxModule) -> bool {
        self.ctx matches Some(ctx) ==> ctx.server_conf_ready(module)
    }

    open spec fn server_conf_spec(&self, module: NgxModule) -> Option<usize> {
        match self.ctx {
            None => None,
            Some(ctx) => ctx.server_conf_spec(module),
        }
    }

    fn stream_server_conf_unchecked(&self, module: &NgxModule) -> (r: Option<usize>) {
        match &self.ctx {
            None => None,
            Some(ctx) => read_slot(&ctx.srv_conf, module.ctx_index),
        }
    }
}

impl StreamModuleMainConfExt for CoreSrvConf {
    open spec fn main_conf_ready(&self, module: NgxModule) -> bool {
        self.ctx matches Some(ctx) ==> ctx.main_conf_ready(module)
    }

    open spec fn main_conf_spec(&self, module: NgxModule) -> Option<usize> {
        match self.ctx {
            None => None,
            Some(ctx) => ctx.main_conf_spec(module),
        }
    }

    fn stream_main_conf_unchecked(&self, module: &NgxModule) -> (r: Option<usize>) {
        match &self.ctx {
            None => None,
            Some(ctx) => ctx.stream_main_conf_unchecked(module),
        }
    }
}

impl StreamModuleServerConfExt for CoreSrvConf {
    open spec fn server_conf_ready(&self, module: NgxModule) -> bool {
        self.ctx matches Some(ctx) ==> ctx.server_conf_ready(module)
    }

    open spec fn server_conf_spec(&self, module: NgxModule) -> Option<usize> {
        match self.ctx {
            None => None,
            Some(ctx) => ctx.server_conf_spec(module),
        }
    }

    fn stream_server_conf_unchecked(&self, module: &NgxModule) -> (r: Option<usize>) {
        match &self.ctx {
            None => None,
            Some(ctx) => ctx.stream_server_conf_unchecked(module),
        }
    }
}

impl StreamModuleServerConfExt for UpstreamSrvConf {
    open spec fn server_conf_ready(&self, module: NgxModule) -> bool {
        self.srv_conf matches Some(table) ==> module.ctx_index < table.len()
    }

    open spec fn server_conf_spec(&self, module: NgxModule) -> Option<usize> {
        match self.srv_conf {
            None => None,
            Some(table) => slot_spec(table@, module.ctx_index as int),
        }
    }

    fn stream_server_conf_unchecked(&self, module: &NgxModule) -> (r: Option<usize>) {
        match &self.srv_conf {
            None => None,
            Some(table) => read_slot(table, module.ctx_index),
        }
    }
}


/// Access to a module's main configuration, found by the module's indices.
pub trait StreamModuleMainConf: StreamModule {
    /// Returns the address of this module's main configuration in `o`.
    fn main_conf<O: StreamModuleMainConfExt>(o: &O, modules: &NgxModules) -> (r: Option<usize>)
        requires
            o.main_conf_ready(Self::module_spec(*modules)),
        ensures
            r == o.main_conf_spec(Self::module_spec(*modules)),
    {
        let module = Self::module(modules);
        o.stream_main_conf_unchecked(&module)
    }

    /// Returns the address of this module's main configuration in `o`, for writing.
    fn main_conf_mut<O: StreamModuleMainConfExt>(o: &O, modules: &NgxModules) -> (r: Option<
        usize,
    >)
        requires
            o.main_conf_ready(Self::module_spec(*modules)),
        ensures
            r == o.main_conf_spec(Self::module_spec(*modules)),
    {
        let module = Self::module(modules);
        o.stream_main_conf_unchecked(&module)
    }
}

/// Access to a module's server configuration, found by the module's indices.
pub trait StreamModuleServerConf: StreamModule {
    /// Returns the address of this module's server configuration in `o`.
    fn server_conf<O: StreamModuleServerConfExt>(o: &O, modules: &NgxModules) -> (r: Option<
        usize,
    >)
        requires
            o.server_conf_ready(Self::module_spec(*modules)),
        ensures
            r == o.server_conf_spec(Self::module_spec(*modules)),
    {
        let module = Self::module(modules);
        o.stream_server_conf_unchecked(&module)
    }

    /// Returns the address of this module's server configuration in `o`, for writing.
    fn server_conf_mut<O: StreamModuleServerConfExt>(o: &O, modules: &NgxModules) -> (r: Option<
        usize,
    >)
        requires
            o.server_conf_ready(Self::module_spec(*modules)),
        ensures
            r == o.server_conf_spec(Self::module_spec(*modules)),
    {
        let module = Self::module(modules);
        o.stream_server_conf_unchecked(&module)
    }
}

/// The stream core module (`ngx_stream_core_module`).
pub struct NgxStreamCoreModule;

impl StreamModule for NgxStreamCoreModule {
    open spec fn module_spec(modules: NgxModules) -> NgxModule {
        modules.stream_core
    }

    fn module(modules: &NgxModules) -> (m: NgxModule) {
        modules.stream_core
    }
}

impl StreamModuleMainConf for NgxStreamCoreModule {

}

impl StreamModuleServerConf for NgxStreamCoreModule {

}

/// The stream SSL module (`ngx_stream_ssl_module`).
pub struct NgxStreamSslModule;

impl StreamModule for NgxStreamSslModule {
    open spec fn module_spec(modules: NgxModules) -> NgxModule {
        modules.stream_ssl
    }

    fn module(modules: &NgxModules) -> (m: NgxModule) {
        modules.stream_ssl
    }
}

impl StreamModuleServerConf for NgxStreamSslModule {

}

/// The stream upstream module (`ngx_stream_upstream_module`).
pub struct NgxStreamUpstreamModule;

impl StreamModule for NgxStreamUpstreamModule {
    open spec fn module_spec(modules: NgxModules) -> NgxModule {
        modules.stream_upstream
    }

    fn module(modules: &NgxModules) -> (m: NgxModule) {
        modules.stream_upstream
    }
}

impl StreamModuleMainConf for NgxStreamUpstreamModule {

}

impl StreamModuleServerConf for NgxStreamUpstreamModule {

}

/// The number of stream phases (`NGX_STREAM_LOG_PHASE + 1`).
pub const STREAM_PHASE_COUNT: usize = 7;

/// Stream phases in which a module can register handlers, in the order NGINX runs them.
#[derive(Clone, Copy, Debug, PartialEq, Eq, Structural)]
pub enum StreamPhase {
    /// Post-accept phase
    PostAccept,
    /// Pre-access phase
    Preaccess,
    /// Access phase
    Access,
    /// Ssl phase
    Ssl,
    /// Pre-read phase
    Preread,
    /// Content phase
    Content,
    /// Log phase
    Log,
}

impl StreamPhase {
    /// The phase's number in NGINX's `ngx_stream_phases`.
    pub open spec fn index_spec(self) -> nat {
        match self {
            StreamPhase::PostAccept => 0,
            StreamPhase::Preaccess => 1,
            StreamPhase::Access => 2,
            StreamPhase::Ssl => 3,
            StreamPhase::Preread => 4,
            StreamPhase::Content => 5,
            StreamPhase::Log => 6,
        }
    }

    /// Returns the phase's number in NGINX's `ngx_stream_phases`.
    pub fn index(&self) -> (r: usize)
        ensures
            r == self.index_spec(),
            r < STREAM_PHASE_COUNT,
    {
        match self {
            StreamPhase::PostAccept => 0,
            StreamPhase::Preaccess => 1,
            StreamPhase::Access => 2,
            StreamPhase::Ssl => 3,
            StreamPhase::Preread => 4,
            StreamPhase::Content => 5,
            StreamPhase::Log => 6,
        }
    }
}

/// The main configuration of the stream core module
/// (`ngx_stream_core_main_conf_t`), as far as handler registration writes it:
/// the handler addresses registered in each phase, by phase number.
#[derive(Debug)]
pub struct CoreMainConf {
    /// The handlers of each phase, in the order they were registered.
    pub phases: Vec<Vec<usize>>,
}

impl CoreMainConf {
    /// The handlers registered in phase number `i`.
    pub open spec fn handlers_spec(self, i: int) -> Seq<usize> {
        self.phases@[i]@
    }

    /// The stream core main configuration has one handler list per phase.
    pub open spec fn wf(self) -> bool {
        self.phases.len() == STREAM_PHASE_COUNT
    }

    /// `after` is `before` with `handler` registered in phase number `phase`
    /// when `pushed`, and unchanged when not.
    pub open spec fn handler_registered(
        before: CoreMainConf,
        after: CoreMainConf,
        phase: int,
        handler: usize,
        pushed: bool,
    ) -> bool {
        &&& after.phases.len() == before.phases.len()
        &&& pushed ==> after.handlers_spec(phase) == before.handlers_spec(phase).push(handler)
        &&& !pushed ==> after.handlers_spec(phase) == before.handlers_spec(phase)
        &&& forall|i: int|
            0 <= i < before.phases.len() && i != phase ==> #[trigger] after.handlers_spec(i)
                == before.handlers_spec(i)
    }
}

/// Registers `handler`, the address of the handler function of `S`, in the
/// phase of `S`. `pushed` tells whether NGINX could make room for one more
/// element in that phase's handler array; when it could not, nothing changes
/// and the registration fails with `AllocError`.
pub fn add_phase_handler<S: StreamSessionHandler>(
    cmcf: &mut CoreMainConf,
    handler: usize,
    pushed: bool,
) -> (r: Result<(), AllocError>)
    requires
        old(cmcf).wf(),
    ensures
        final(cmcf).wf(),
        r is Ok <==> pushed,
        CoreMainConf::handler_registered(
            *old(cmcf),
            *final(cmcf),
            S::phase_spec().index_spec() as int,
            handler,
            pushed,
        ),
{
    let phase = S::phase();
    let i = phase.index();
    if !pushed {
        return Err(AllocError);
    }
    cmcf.phases[i].push(handler);
    Ok(())
}

/// Every phase has a slot of its own among the `STREAM_PHASE_COUNT` handler
/// lists: two phases share a number only when they are the same phase.
pub proof fn lemma_phase_slots_distinct(a: StreamPhase, b: StreamPhase)
    ensures
        a.index_spec() < STREAM_PHASE_COUNT,
        a.index_spec() == b.index_spec() <==> a == b,
{
}

/// A module's configuration is the same whichever holder of a stream context
/// it is looked up through: the context itself, the configuration being
/// parsed, the core server configuration, or the cycle whose stream entry it is.
pub proof fn lemma_lookups_agree(
    ctx: StreamConfCtx,
    cf: NgxConf,
    cscf: CoreSrvConf,
    cycle: NgxCycle,
    module: NgxModule,
)
    requires
        cf.ctx == Some(ctx),
        cscf.ctx == Some(ctx),
        cycle.conf_ctx matches Some(table) && cycle.stream_index < table.len() && table@[
            cycle.stream_index as int
        ] == Some(ctx),
    ensures
        cf.main_conf_spec(module) == ctx.main_conf_spec(module),
        cf.server_conf_spec(module) == ctx.server_conf_spec(module),
        cscf.main_conf_spec(module) == ctx.main_conf_spec(module),
        cscf.server_conf_spec(module) == ctx.server_conf_spec(module),
        cycle.main_conf_spec(module) == ctx.main_conf_spec(module),
{
}

/// Handlers registered one after the other in the same phase stay in the
/// order of registration, after those registered before them; a registration
/// that found no room changes nothing.
pub proof fn lemma_registration_order(
    c0: CoreMainConf,
    c1: CoreMainConf,
    c2: CoreMainConf,
    phase: StreamPhase,
    first: usize,
    second: usize,
    first_pushed: bool,
    second_pushed: bool,
)
    requires
        c0.wf(),
        CoreMainConf::handler_registered(c0, c1, phase.index_spec() as int, first, first_pushed),
        CoreMainConf::handler_registered(c1, c2, phase.index_spec() as int, second, second_pushed),
    ensures
        c2.wf(),
        first_pushed && second_pushed ==> c2.handlers_spec(phase.index_spec() as int) == c0.handlers_spec(
            phase.index_spec() as int,
        ) + seq![first, second],
        !first_pushed && !second_pushed ==> forall|i: int|
            0 <= i < STREAM_PHASE_COUNT ==> #[trigger] c2.handlers_spec(i) == c0.handlers_spec(i),
{
    let p = phase.index_spec() as int;
    if first_pushed && second_pushed {
        assert(c2.handlers_spec(p) =~= c0.handlers_spec(p) + seq![first, second]);
    }
    if !first_pushed && !second_pushed {
        assert forall|i: int| 0 <= i < STREAM_PHASE_COUNT implies #[trigger] c2.handlers_spec(i)
            == c0.handlers_spec(i) by {
            if i != p {
                assert(c1.handlers_spec(i) == c0.handlers_spec(i));
            }
        }
    }
}

/// A module's main and server configuration in a stream context is the
/// pointer stored in the module's slot, unchanged: the lookup gives `None`
/// exactly when that slot is null, and otherwise that very address.
pub proof fn lemma_ctx_lookup_is_slot(ctx: StreamConfCtx, module: NgxModule)
    ensures
        module.ctx_index < ctx.main_conf.len() ==> {
            &&& (ctx.main_conf_spec(module) is None <==> ctx.main_conf@[module.ctx_index as int]
                == 0)
            &&& (ctx.main_conf_spec(module) matches Some(a) ==> a == ctx.main_conf@[
                module.ctx_index as int
            ])
        },
        module.ctx_index < ctx.srv_conf.len() ==> {
            &&& (ctx.server_conf_spec(module) is None <==> ctx.srv_conf@[module.ctx_index as int]
                == 0)
            &&& (ctx.server_conf_spec(module) matches Some(a) ==> a == ctx.srv_conf@[
                module.ctx_index as int
            ])
        },
{
}

/// The pointer stored in a slot, read as an optional address: `None` for 0,
/// else the address unchanged.
pub open spec fn pointer_or_none(addr: usize) -> Option<usize> {
    if addr == 0 {
        None
    } else {
        Some(addr)
    }
}

/// Through the configuration being parsed, a core server configuration or the
/// cycle whose stream entry is `ctx`, a module's configuration is the pointer
/// in the module's slot of `ctx`, unchanged, and `None` when that slot is null.
pub proof fn lemma_holder_lookup_is_slot(
    ctx: StreamConfCtx,
    cf: NgxConf,
    cscf: CoreSrvConf,
    cycle: NgxCycle,
    module: NgxModule,
)
    requires
        cf.ctx == Some(ctx),
        cscf.ctx == Some(ctx),
        cycle.conf_ctx matches Some(table) && cycle.stream_index < table.len() && table@[
            cycle.stream_index as int
        ] == Some(ctx),
    ensures
        module.ctx_index < ctx.main_conf.len() ==> {
            &&& cf.main_conf_spec(module) == pointer_or_none(
                ctx.main_conf@[module.ctx_index as int],
            )
            &&& cscf.main_conf_spec(module) == pointer_or_none(
                ctx.main_conf@[module.ctx_index as int],
            )
            &&& cycle.main_conf_spec(module) == pointer_or_none(
                ctx.main_conf@[module.ctx_index as int],
            )
        },
        module.ctx_index < ctx.srv_conf.len() ==> {
            &&& cf.server_conf_spec(module) == pointer_or_none(
                ctx.srv_conf@[module.ctx_index as int],
            )
            &&& cscf.server_conf_spec(module) == pointer_or_none(
                ctx.srv_conf@[module.ctx_index as int],
            )
        },
{
}

/// A holder with no stream context gives no configuration: the configuration
/// being parsed or a core server configuration whose context pointer is null,
/// and a cycle whose context array, or whose stream entry in it, is null.
pub proof fn lemma_empty_holder_lookup_is_none(
    cf: NgxConf,
    cscf: CoreSrvConf,
    cycle: NgxCycle,
    module: NgxModule,
)
    ensures
        cf.ctx is None ==> cf.main_conf_spec(module) is None && cf.server_conf_spec(module) is None,
        cscf.ctx is None ==> cscf.main_conf_spec(module) is None && cscf.server_conf_spec(
            module,
        ) is None,
        cycle.conf_ctx is None ==> cycle.main_conf_spec(module) is None,
        (cycle.conf_ctx matches Some(table) && cycle.stream_index < table.len() && table@[
            cycle.stream_index as int
        ] is None) ==> cycle.main_conf_spec(module) is None,
{
}

/// In an upstream block, a module's server configuration is the pointer in the
/// module's slot of the block's array `table`, unchanged (`None` when the slot
/// is null), and `None` when the block has no array.
pub proof fn lemma_upstream_lookup_is_slot(
    uscf: UpstreamSrvConf,
    table: Vec<usize>,
    module: NgxModule,
)
    ensures
        uscf.srv_conf is None ==> uscf.server_conf_spec(module) is None,
        uscf.srv_conf == Some(table) && module.ctx_index < table.len() ==> {
            &&& (uscf.server_conf_spec(module) is None <==> table@[module.ctx_index as int] == 0)
            &&& (uscf.server_conf_spec(module) matches Some(a) ==> a == table@[
                module.ctx_index as int
            ])
        },
{
}

/// Reading a pointer slot gives `None` exactly for a null pointer and
/// otherwise the stored address itself.
pub proof fn lemma_slot_read_is_pointer(table: Seq<usize>, i: int, addr: usize)
    ensures
        nonnull_spec(addr) is None <==> addr == 0,
        nonnull_spec(addr) matches Some(a) ==> a == addr,
        0 <= i < table.len() ==> (slot_spec(table, i) is None <==> table[i] == 0),
        0 <= i < table.len() ==> (slot_spec(table, i) matches Some(a) ==> a == table[i]),
{
}

/// The phases are numbered as NGINX runs them, from post-accept (0) to log (6).
pub proof fn lemma_phase_numbers()
    ensures
        StreamPhase::PostAccept.index_spec() == 0,
        StreamPhase::Preaccess.index_spec() == 1,
        StreamPhase::Access.index_spec() == 2,
        StreamPhase::Ssl.index_spec() == 3,
        StreamPhase::Preread.index_spec() == 4,
        StreamPhase::Content.index_spec() == 5,
        StreamPhase::Log.index_spec() == 6,
{
}

} // verus!
