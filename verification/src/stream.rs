//! The stream (TCP/UDP proxy) subsystem.

pub mod conf;
pub mod module;
pub mod session;

pub use conf::{
    add_phase_handler, CoreMainConf, CoreSrvConf, NgxConf, NgxCycle, NgxModule, NgxModules,
    NgxStreamCoreModule, NgxStreamSslModule, NgxStreamUpstreamModule, StreamConfCtx,
    StreamModuleMainConf, StreamModuleMainConfExt, StreamModuleServerConf,
    StreamModuleServerConfExt, StreamPhase, UpstreamSrvConf, STREAM_PHASE_COUNT,
};
pub use module::{merge_status, StreamModule};
pub use session::{raw_handler, IntoHandlerStatus, Session, StreamSessionHandler};
