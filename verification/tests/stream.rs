use ngx::base::{MergeConfigError, Merge, Status, NGX_CONF_ERROR, NGX_CONF_OK, NGX_ERROR, NGX_OK};
use ngx::stream::{
    add_phase_handler, merge_status, raw_handler, CoreMainConf, CoreSrvConf, IntoHandlerStatus,
    NgxConf, NgxCycle, NgxModule, NgxModules, NgxStreamCoreModule, NgxStreamSslModule,
    NgxStreamUpstreamModule, Session, StreamConfCtx, StreamModule, StreamModuleMainConf,
    StreamModuleMainConfExt, StreamModuleServerConf, StreamModuleServerConfExt,
    StreamPhase, StreamSessionHandler, UpstreamSrvConf, STREAM_PHASE_COUNT,
};

fn module(ctx_index: usize) -> NgxModule {
    NgxModule { ctx_index, index: 40 + ctx_index }
}

fn modules() -> NgxModules {
    NgxModules {
        stream: NgxModule { ctx_index: 0, index: 2 },
        stream_core: module(0),
        stream_ssl: module(1),
        stream_upstream: module(2),
    }
}

fn ctx() -> StreamConfCtx {
    StreamConfCtx {
        main_conf: vec![0x1000, 0, 0x3000],
        srv_conf: vec![0x1100, 0x2100, 0],
    }
}

fn session() -> Session {
    Session {
        main_conf: vec![0x1000, 0, 0x3000],
        srv_conf: vec![0x1100, 0x2100, 0],
        ctx: vec![0, 0, 0],
        upstream: 0,
        connection: 0x9000,
        connection_log: 0x9100,
    }
}

#[test]
fn conf_ctx_lookup_returns_slot_or_none() {
    let c = ctx();
    assert_eq!(c.stream_main_conf_unchecked(&module(0)), Some(0x1000));
    assert_eq!(c.stream_main_conf_unchecked(&module(1)), None);
    assert_eq!(c.stream_server_conf_unchecked(&module(1)), Some(0x2100));
    assert_eq!(c.stream_server_conf_unchecked(&module(2)), None);
}

#[test]
fn ngx_conf_lookup_goes_through_its_ctx() {
    let cf = NgxConf { ctx: Some(ctx()) };
    assert_eq!(cf.stream_main_conf_unchecked(&module(2)), Some(0x3000));
    assert_eq!(cf.stream_server_conf_unchecked(&module(0)), Some(0x1100));
    let empty = NgxConf { ctx: None };
    assert_eq!(empty.stream_main_conf_unchecked(&module(0)), None);
    assert_eq!(empty.stream_server_conf_unchecked(&module(0)), None);
}

#[test]
fn core_srv_conf_lookup_goes_through_its_ctx() {
    let cscf = CoreSrvConf { ctx: Some(ctx()) };
    assert_eq!(cscf.stream_main_conf_unchecked(&module(0)), Some(0x1000));
    assert_eq!(cscf.stream_server_conf_unchecked(&module(1)), Some(0x2100));
    let empty = CoreSrvConf { ctx: None };
    assert_eq!(empty.stream_main_conf_unchecked(&module(0)), None);
    assert_eq!(empty.stream_server_conf_unchecked(&module(0)), None);
}

#[test]
fn cycle_lookup_uses_the_stream_entry() {
    let cycle = NgxCycle { conf_ctx: Some(vec![None, None, Some(ctx())]), stream_index: 2 };
    assert_eq!(cycle.stream_main_conf_unchecked(&module(0)), Some(0x1000));
    assert_eq!(cycle.stream_main_conf_unchecked(&module(1)), None);
    let no_stream = NgxCycle { conf_ctx: Some(vec![Some(ctx()), None, None]), stream_index: 2 };
    assert_eq!(no_stream.stream_main_conf_unchecked(&module(0)), None);
    let no_array = NgxCycle { conf_ctx: None, stream_index: 2 };
    assert_eq!(no_array.stream_main_conf_unchecked(&module(0)), None);
}

#[test]
fn upstream_srv_conf_lookup_handles_null_array() {
    let uscf = UpstreamSrvConf { srv_conf: Some(vec![0, 0x5000]) };
    assert_eq!(uscf.stream_server_conf_unchecked(&module(1)), Some(0x5000));
    assert_eq!(uscf.stream_server_conf_unchecked(&module(0)), None);
    let none = UpstreamSrvConf { srv_conf: None };
    assert_eq!(none.stream_server_conf_unchecked(&module(1)), None);
}

#[test]
fn module_traits_find_the_named_modules() {
    let m = modules();
    assert_eq!(NgxStreamCoreModule::module(&m), module(0));
    assert_eq!(NgxStreamSslModule::module(&m), module(1));
    assert_eq!(NgxStreamUpstreamModule::module(&m), module(2));
    let cf = NgxConf { ctx: Some(ctx()) };
    assert_eq!(NgxStreamCoreModule::main_conf(&cf, &m), Some(0x1000));
    assert_eq!(NgxStreamCoreModule::main_conf_mut(&cf, &m), Some(0x1000));
    assert_eq!(NgxStreamCoreModule::server_conf(&cf, &m), Some(0x1100));
    assert_eq!(NgxStreamSslModule::server_conf(&cf, &m), Some(0x2100));
    assert_eq!(NgxStreamUpstreamModule::main_conf(&cf, &m), Some(0x3000));
    assert_eq!(NgxStreamUpstreamModule::server_conf_mut(&cf, &m), None);
    let s = session();
    assert_eq!(NgxStreamSslModule::server_conf(&s, &m), Some(0x2100));
    assert_eq!(NgxStreamSslModule::server_conf_mut(&s, &m), Some(0x2100));
}

#[test]
fn session_conf_lookups() {
    let s = session();
    assert_eq!(s.stream_main_conf_unchecked(&module(2)), Some(0x3000));
    assert_eq!(s.stream_main_conf_unchecked(&module(1)), None);
    assert_eq!(s.stream_server_conf_unchecked(&module(0)), Some(0x1100));
}

#[test]
fn session_upstream_connection_and_log() {
    let mut s = session();
    assert_eq!(s.upstream(), None);
    s.upstream = 0x7000;
    assert_eq!(s.upstream(), Some(0x7000));
    assert_eq!(s.connection(), 0x9000);
    assert_eq!(s.log(), 0x9100);
}

#[test]
fn module_ctx_read_after_write() {
    let mut s = session();
    assert_eq!(s.get_module_ctx(&module(1)), None);
    s.set_module_ctx(0x4242, &module(1));
    assert_eq!(s.get_module_ctx(&module(1)), Some(0x4242));
    assert_eq!(s.get_module_ctx(&module(0)), None);
    assert_eq!(s.get_module_ctx(&module(2)), None);
    assert_eq!(s.stream_main_conf_unchecked(&module(0)), Some(0x1000));
    s.set_module_ctx(0, &module(1));
    assert_eq!(s.get_module_ctx(&module(1)), None);
}

#[test]
fn complex_value_only_on_ok() {
    let s = session();
    assert_eq!(s.get_complex_value(NGX_OK, b"backend".to_vec()), Some(b"backend".to_vec()));
    assert_eq!(s.get_complex_value(NGX_ERROR, b"backend".to_vec()), None);
    assert_eq!(s.get_complex_value(-2, Vec::new()), None);
}

#[test]
fn handler_status_conversions() {
    let s = session();
    assert_eq!(7isize.into_handler_status(&s), 7);
    assert_eq!(Status(-5).into_handler_status(&s), -5);
    assert_eq!(Some(Status(NGX_OK)).into_handler_status(&s), NGX_OK);
    assert_eq!(None::<Status>.into_handler_status(&s), NGX_ERROR);
    assert_eq!(Some(Some(3isize)).into_handler_status(&s), 3);
    assert_eq!(Some(None::<isize>).into_handler_status(&s), NGX_ERROR);
}

struct MarkHandler;

impl StreamSessionHandler for MarkHandler {
    fn phase_spec() -> StreamPhase {
        StreamPhase::Access
    }

    fn phase() -> StreamPhase {
        StreamPhase::Access
    }

    type Output = Option<Status>;

    fn handler_spec(before: Session, after: Session, out: Option<Status>) -> bool {
        let expected = if before.upstream == 0 { None } else { Some(Status(NGX_OK)) };
        out == expected && after.ctx[2] == 0xabc && after.upstream == before.upstream
    }

    fn name() -> &'static str {
        "mark"
    }

    fn handler(session: &mut Session) -> Option<Status> {
        session.set_module_ctx(0xabc, &module(2));
        if session.upstream == 0 {
            None
        } else {
            Some(Status(NGX_OK))
        }
    }
}

struct LogHandler;

impl StreamSessionHandler for LogHandler {
    fn phase_spec() -> StreamPhase {
        StreamPhase::Log
    }

    fn phase() -> StreamPhase {
        StreamPhase::Log
    }

    type Output = isize;

    fn handler_spec(before: Session, after: Session, out: isize) -> bool {
        out == -4 && after.ctx == before.ctx
    }

    fn name() -> &'static str {
        "log"
    }

    fn handler(_session: &mut Session) -> isize {
        -4
    }
}

#[test]
fn raw_handler_converts_what_the_handler_returns() {
    let mut s = session();
    assert_eq!(raw_handler::<MarkHandler>(&mut s), NGX_ERROR);
    assert_eq!(s.get_module_ctx(&module(2)), Some(0xabc));
    s.upstream = 0x10;
    assert_eq!(raw_handler::<MarkHandler>(&mut s), NGX_OK);
    assert_eq!(raw_handler::<LogHandler>(&mut s), -4);
}

fn core_main_conf() -> CoreMainConf {
    CoreMainConf { phases: vec![Vec::new(); STREAM_PHASE_COUNT] }
}

#[test]
fn add_phase_handler_appends_to_its_phase() {
    let mut cmcf = core_main_conf();
    assert_eq!(add_phase_handler::<MarkHandler>(&mut cmcf, 0x11, true), Ok(()));
    assert_eq!(add_phase_handler::<MarkHandler>(&mut cmcf, 0x22, true), Ok(()));
    assert_eq!(add_phase_handler::<LogHandler>(&mut cmcf, 0x33, true), Ok(()));
    assert_eq!(cmcf.phases[2], vec![0x11, 0x22]);
    assert_eq!(cmcf.phases[6], vec![0x33]);
    for i in [0usize, 1, 3, 4, 5] {
        assert!(cmcf.phases[i].is_empty());
    }
}

#[test]
fn add_phase_handler_fails_without_room() {
    let mut cmcf = core_main_conf();
    assert_eq!(add_phase_handler::<MarkHandler>(&mut cmcf, 0x11, true), Ok(()));
    assert!(add_phase_handler::<MarkHandler>(&mut cmcf, 0x22, false).is_err());
    assert_eq!(cmcf.phases[2], vec![0x11]);
}

#[test]
fn phase_numbers_follow_nginx() {
    let phases = [
        StreamPhase::PostAccept,
        StreamPhase::Preaccess,
        StreamPhase::Access,
        StreamPhase::Ssl,
        StreamPhase::Preread,
        StreamPhase::Content,
        StreamPhase::Log,
    ];
    for (i, p) in phases.iter().enumerate() {
        assert_eq!(p.index(), i);
    }
    assert_eq!(STREAM_PHASE_COUNT, 7);
}

#[test]
fn merge_status_maps_outcome() {
    assert_eq!(merge_status(Ok(())), NGX_CONF_OK);
    assert_eq!(merge_status(Err(MergeConfigError)), NGX_CONF_ERROR);
    assert_eq!(NGX_CONF_ERROR, usize::MAX);
}

struct Limits {
    max_conns: Option<u32>,
}

impl Merge for Limits {
    fn merge_spec(before: Self, prev: Self, after: Self, result: Result<(), MergeConfigError>) -> bool {
        let filled = before.max_conns.or(prev.max_conns);
        after.max_conns == filled && result.is_ok() == (filled != Some(0))
    }

    fn merge(&mut self, prev: &Self) -> Result<(), MergeConfigError> {
        if self.max_conns.is_none() {
            self.max_conns = prev.max_conns;
        }
        if self.max_conns == Some(0) {
            return Err(MergeConfigError);
        }
        Ok(())
    }
}

struct LimitsModule;

impl StreamModule for LimitsModule {
    fn module_spec(modules: NgxModules) -> NgxModule {
        modules.stream_core
    }

    fn module(modules: &NgxModules) -> NgxModule {
        modules.stream_core
    }
}

fn assert_cf_is_ctx(cf: &NgxConf) {
    for i in 0..3 {
        let m = module(i);
        assert_eq!(cf.stream_main_conf_unchecked(&m), ctx().stream_main_conf_unchecked(&m));
        assert_eq!(cf.stream_server_conf_unchecked(&m), ctx().stream_server_conf_unchecked(&m));
    }
}

#[test]
fn handler_names() {
    assert_eq!(MarkHandler::name(), "mark");
    assert_eq!(LogHandler::name(), "log");
}

#[test]
fn stream_module_default_callbacks() {
    let mut cf = NgxConf { ctx: Some(ctx()) };
    assert_eq!(LimitsModule::preconfiguration(&mut cf), NGX_OK);
    assert_eq!(LimitsModule::postconfiguration(&mut cf), NGX_OK);
    assert_eq!(LimitsModule::init_main_conf(&mut cf), NGX_CONF_OK);
    let prev = Limits { max_conns: Some(10) };
    let mut conf = Limits { max_conns: None };
    assert_eq!(LimitsModule::merge_srv_conf(&mut cf, &prev, &mut conf), NGX_CONF_OK);
    assert_eq!(conf.max_conns, Some(10));
    let bad_prev = Limits { max_conns: Some(0) };
    let mut bad = Limits { max_conns: None };
    assert_eq!(LimitsModule::merge_srv_conf(&mut cf, &bad_prev, &mut bad), NGX_CONF_ERROR);
    assert_eq!(bad.max_conns, Some(0));
    assert_cf_is_ctx(&cf);
    let mut kept = Limits { max_conns: Some(3) };
    assert_eq!(LimitsModule::merge_srv_conf(&mut cf, &prev, &mut kept), NGX_CONF_OK);
    assert_eq!(kept.max_conns, Some(3));
    assert_eq!(prev.max_conns, Some(10));
    assert_cf_is_ctx(&cf);
}

#[test]
fn lookups_agree_across_holders_of_one_context() {
    let c = ctx();
    let cf = NgxConf { ctx: Some(ctx()) };
    let cscf = CoreSrvConf { ctx: Some(ctx()) };
    let cycle = NgxCycle { conf_ctx: Some(vec![Some(ctx())]), stream_index: 0 };
    for i in 0..3 {
        let m = module(i);
        let main = c.stream_main_conf_unchecked(&m);
        let srv = c.stream_server_conf_unchecked(&m);
        assert_eq!(cf.stream_main_conf_unchecked(&m), main);
        assert_eq!(cscf.stream_main_conf_unchecked(&m), main);
        assert_eq!(cycle.stream_main_conf_unchecked(&m), main);
        assert_eq!(cf.stream_server_conf_unchecked(&m), srv);
        assert_eq!(cscf.stream_server_conf_unchecked(&m), srv);
    }
}
