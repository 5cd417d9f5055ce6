//! Packet plane of a user-space network tunnel: a non-blocking device
//! adapter over asynchronous frame queues, and a translator between raw
//! IP frames and UDP datagram events.

pub mod addr;
pub mod frame;
pub mod device;
pub mod udp;
