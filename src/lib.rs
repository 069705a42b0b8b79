//! Session routing and error policy of a flow-stateful UDP reverse proxy.
//!
//! The library holds the decisions of the proxy: which I/O errors end a
//! loop, how datagrams are routed to per-source sessions, and how each
//! session loop reacts to what its socket and queue hand it. The sockets,
//! channels and tasks themselves live with the program that drives it.

mod cache;
mod error_util;
mod session;

pub use cache::{
    evicted, evicted_all, lemma_exit_evicts, lemma_one_session_per_epoch, CacheEntry,
    SessionCache,
};
pub use error_util::{handle_io_error, io_kind_of, is_fatal, is_fatal_kind, ErrorAction};
pub use session::{
    lemma_tx_sends_in_order, queued_payload, reply_channel_closed, rx_next, tx_next,
    tx_send_failed, tx_sends, IpAddress, QueueEvent, RxAction, SessionReply, SessionSource,
    SocketEvent, TxAction,
};
