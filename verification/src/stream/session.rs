//! Stream sessions and the handlers that run on them.

use vstd::prelude::*;

use crate::base::{Status, NGX_ERROR, NGX_OK};
use crate::stream::conf::{
    nonnull_spec, read_slot, slot_spec, NgxModule, StreamModuleMainConfExt,
    StreamModuleServerConfExt, StreamPhase,
};

verus! {

/// Conversion of a handler's return value into the status code NGINX expects.
pub trait IntoHandlerStatus: Sized {
    /// The status code that `self` stands for when returned on `session`.
    spec fn handler_status_spec(self, session: Session) -> isize;

    /// Converts the handler return value into an `ngx_int_t` status.
    fn into_handler_status(self, session: &Session) -> (r: isize)
        ensures
            r == self.handler_status_spec(*session),
    ;
}

impl<T: IntoHandlerStatus> IntoHandlerStatus for Option<T> {
    /// A value converts as its content does; no value is `NGX_ERROR`.
    open spec fn handler_status_spec(self, session: Session) -> isize {
        match self {
            Some(val) => val.handler_status_spec(session),
            None => NGX_ERROR,
        }
    }

    fn into_handler_status(self, session: &Session) -> (r: isize) {
        match self {
            Some(val) => val.into_handler_status(session),
            None => NGX_ERROR,
        }
    }
}

impl IntoHandlerStatus for isize {
    /// A status code converts to itself.
    open spec fn handler_status_spec(self, session: Session) -> isize {
        self
    }

    fn into_handler_status(self, _session: &Session) -> (r: isize) {
        self
    }
}

impl IntoHandlerStatus for Status {
    /// A `Status` converts to the code it wraps.
    open spec fn handler_status_spec(self, session: Session) -> isize {
        self.0
    }

    fn into_handler_status(self, _session: &Session) -> (r: isize) {
        self.0
    }
}

/// A session handler that runs in a fixed stream phase.
pub trait StreamSessionHandler {
    /// The phase in which the handler is invoked.
    spec fn phase_spec() -> StreamPhase;

    /// Returns the phase in which the handler is invoked.
    fn phase() -> (p: StreamPhase)
        ensures
            p == Self::phase_spec(),
    ;

    /// The return type of the handler.
    type Output: IntoHandlerStatus;

    /// Whether running the handler on `before` may leave the session as
    /// `after` and return `out`.
    spec fn handler_spec(before: Session, after: Session, out: Self::Output) -> bool;

    /// The handler function.
    fn handler(session: &mut Session) -> (out: Self::Output)
        ensures
            Self::handler_spec(*old(session), *final(session), out),
    ;

    /// The handler's name, for log messages.
    fn name() -> &'static str;
}

/// Runs the handler `S` once on `session` and converts what it returns, on
/// the session as the handler left it, into the status code of the phase step.
pub fn raw_handler<S: StreamSessionHandler>(session: &mut Session) -> (r: isize)
    ensures
        exists|out: S::Output|
            #[trigger] S::handler_spec(*old(session), *final(session), out) && r
                == out.handler_status_spec(*final(session)),
{
    let out = S::handler(session);
    let ghost out_spec = out;
    let r = out.into_handler_status(session);
    assert(S::handler_spec(*old(session), *session, out_spec));
    r
}

/// A stream session (`ngx_stream_session_t`), as far as this library reads it.
#[derive(Debug)]
pub struct Session {
    /// Main-level configuration of each stream module, by `ctx_index`.
    pub main_conf: Vec<usize>,
    /// Server-level configuration of each stream module, by `ctx_index`.
    pub srv_conf: Vec<usize>,
    /// Per-session context of each stream module, by `ctx_index`.
    pub ctx: Vec<usize>,
    /// Address of the upstream state (`ngx_stream_upstream_t`); 0 when there is none.
    pub upstream: usize,
    /// Address of the client connection (`ngx_connection_t`).
    pub connection: usize,
    /// Address of the client connection's log (`ngx_log_t`).
    pub connection_log: usize,
}

impl Session {
    /// The context that `module` stored on this session: `None` when its slot is null.
    pub open spec fn module_ctx_spec(self, module: NgxModule) -> Option<usize> {
        slot_spec(self.ctx@, module.ctx_index as int)
    }

    /// `after` is `before` with the context slot of `module` set to `value`
    /// and everything else as it was.
    pub open spec fn module_ctx_written(
        before: Session,
        after: Session,
        value: usize,
        module: NgxModule,
    ) -> bool {
        &&& after.ctx@ == before.ctx@.update(module.ctx_index as int, value)
        &&& after.main_conf@ == before.main_conf@
        &&& after.srv_conf@ == before.srv_conf@
        &&& after.upstream == before.upstream
        &&& after.connection == before.connection
        &&& after.connection_log == before.connection_log
    }

    /// Returns the upstream state of the session, or `None` when it has none.
    pub fn upstream(&self) -> (r: Option<usize>)
        ensures
            r == nonnull_spec(self.upstream),
    {
        if self.upstream == 0 {
            return None;
        }
        Some(self.upstream)
    }

    /// Returns the address of the client connection.
    pub fn connection(&self) -> (r: usize)
        ensures
            r == self.connection,
    {
        self.connection
    }

    /// Returns the address of the log of the client connection.
    pub fn log(&self) -> (r: usize)
        requires
            self.connection != 0,
        ensures
            r == self.connection_log,
    {
        self.connection_log
    }

    /// Returns the raw context slot of `module`.
    fn get_module_ctx_ptr(&self, module: &NgxModule) -> (r: usize)
        requires
            module.ctx_index < self.ctx.len(),
        ensures
            r == self.ctx@[module.ctx_index as int],
    {
        self.ctx[module.ctx_index]
    }

    /// Returns the context that `module` stored on this session, or `None` when it stored none.
    pub fn get_module_ctx(&self, module: &NgxModule) -> (r: Option<usize>)
        requires
            module.ctx_index < self.ctx.len(),
        ensures
            r == self.module_ctx_spec(*module),
            r matches Some(a) ==> a != 0,
    {
        let ctx = self.get_module_ctx_ptr(module);
        if ctx == 0 {
            None
        } else {
            Some(ctx)
        }
    }

    /// Stores `value` as the context of `module` on this session.
    pub fn set_module_ctx(&mut self, value: usize, module: &NgxModule)
        requires
            module.ctx_index < old(self).ctx.len(),
        ensures
            Session::module_ctx_written(*old(self), *final(self), value, *module),
            final(self).module_ctx_spec(*module) == nonnull_spec(value),
    {
        self.ctx[module.ctx_index] = value;
    }

    /// Returns the value of a complex value from what evaluating it gave:
    /// the evaluated string when the evaluation returned `NGX_OK`, else `None`.
    pub fn get_complex_value(&self, status: isize, value: Vec<u8>) -> (r: Option<Vec<u8>>)
        ensures
            r is Some <==> status == NGX_OK,
            r matches Some(v) ==> v@ == value@,
    {
        if status != NGX_OK {
            return None;
        }
        Some(value)
    }
}

impl StreamModuleMainConfExt for Session {
    open spec fn main_conf_ready(&self, module: NgxModule) -> bool {
        module.ctx_index < self.main_conf.len()
    }

    open spec fn main_conf_spec(&self, module: NgxModule) -> Option<usize> {
        slot_spec(self.main_conf@, module.ctx_index as int)
    }

    fn stream_main_conf_unchecked(&self, module: &NgxModule) -> (r: Option<usize>) {
        read_slot(&self.main_conf, module.ctx_index)
    }
}

impl StreamModuleServerConfExt for Session {
    open spec fn server_conf_ready(&self, module: NgxModule) -> bool {
        module.ctx_index < self.srv_conf.len()
    }

    open spec fn server_conf_spec(&self, module: NgxModule) -> Option<usize> {
        slot_spec(self.srv_conf@, module.ctx_index as int)
    }

    fn stream_server_conf_unchecked(&self, module: &NgxModule) -> (r: Option<usize>) {
        read_slot(&self.srv_conf, module.ctx_index)
    }
}

/// Writing a module's context and reading it back gives what was written
/// (`None` for a null pointer); the context of every module with another slot,
/// and the session's main and server configuration of every module, stay as
/// they were.
pub proof fn lemma_module_ctx_write_read(
    before: Session,
    after: Session,
    value: usize,
    module: NgxModule,
    other: NgxModule,
)
    requires
        module.ctx_index < before.ctx.len(),
        Session::module_ctx_written(before, after, value, module),
    ensures
        after.module_ctx_spec(module) == nonnull_spec(value),
        other.ctx_index != module.ctx_index && other.ctx_index < before.ctx.len()
            ==> after.module_ctx_spec(other) == before.module_ctx_spec(other),
        after.ctx.len() == before.ctx.len(),
        after.main_conf_spec(other) == before.main_conf_spec(other),
        after.server_conf_spec(other) == before.server_conf_spec(other),
        after.upstream == before.upstream,
{
}

/// A `Status` converts to exactly the code it wraps, and a plain code to
/// itself, whatever the session: a handler that returns `Status(c)` or `c`
/// hands `c` to NGINX. A missing value converts to `NGX_ERROR` (-1).
pub proof fn lemma_status_codes_pass_through(code: isize, session: Session)
    ensures
        Status(code).handler_status_spec(session) == code,
        code.handler_status_spec(session) == code,
        Some(Status(code)).handler_status_spec(session) == code,
        None::<Status>.handler_status_spec(session) == -1,
{
}

/// A session's main and server configuration of a module are the pointers in
/// the module's slot of the session's `main_conf` and `srv_conf`, unchanged:
/// `None` exactly when that slot is null, and otherwise that very address.
pub proof fn lemma_session_lookup_is_slot(session: Session, module: NgxModule)
    ensures
        module.ctx_index < session.main_conf.len() ==> {
            &&& (session.main_conf_spec(module) is None <==> session.main_conf@[
                module.ctx_index as int
            ] == 0)
            &&& (session.main_conf_spec(module) matches Some(a) ==> a == session.main_conf@[
                module.ctx_index as int
            ])
        },
        module.ctx_index < session.srv_conf.len() ==> {
            &&& (session.server_conf_spec(module) is None <==> session.srv_conf@[
                module.ctx_index as int
            ] == 0)
            &&& (session.server_conf_spec(module) matches Some(a) ==> a == session.srv_conf@[
                module.ctx_index as int
            ])
        },
{
}

/// A session's server configuration depends on its `srv_conf` alone and its
/// main configuration on its `main_conf` alone: two sessions with the same
/// server array give the same server configuration whatever their main arrays,
/// and the other way round.
pub proof fn lemma_session_levels_independent(s1: Session, s2: Session, module: NgxModule)
    ensures
        s1.srv_conf@ == s2.srv_conf@ ==> s1.server_conf_spec(module) == s2.server_conf_spec(
            module,
        ),
        s1.main_conf@ == s2.main_conf@ ==> s1.main_conf_spec(module) == s2.main_conf_spec(module),
{
}

/// The context a module stored on a session is the pointer in the module's
/// slot of the session's `ctx`, unchanged, `None` exactly when that slot is
/// null; and the session's upstream is its upstream pointer, `None` exactly
/// when that pointer is null.
pub proof fn lemma_session_ctx_and_upstream_are_pointers(session: Session, module: NgxModule)
    ensures
        module.ctx_index < session.ctx.len() ==> {
            &&& (session.module_ctx_spec(module) is None <==> session.ctx@[module.ctx_index as int]
                == 0)
            &&& (session.module_ctx_spec(module) matches Some(a) ==> a == session.ctx@[
                module.ctx_index as int
            ])
        },
        nonnull_spec(session.upstream) is None <==> session.upstream == 0,
        nonnull_spec(session.upstream) matches Some(a) ==> a == session.upstream,
{
}

} // verus!
