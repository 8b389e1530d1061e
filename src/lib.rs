//! Per address:port statistics of sniffed traffic, and their fixed-width text rendering.

pub mod text;
pub mod protocols;
pub mod info_address_port_pair;
