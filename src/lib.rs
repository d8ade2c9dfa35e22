//! A bandwidth-throttled relay between one client connection and one upstream
//! endpoint. The library holds the per-direction budget accounting and the
//! decisions of the relay loop; the program around it owns the sockets and the
//! timer and hands each completed event to the session.
pub mod budget;
pub mod session;
pub mod trace;
