//! A minimal userspace network-stack core: Ethernet framing, ARP with an
//! expiring address cache, IPv4, ICMP echo and UDP, all built on one shared
//! Internet checksum.

pub mod addr;
pub mod arp;
pub mod bytes;
pub mod checksum;
pub mod clock;
pub mod device;
pub mod error;
pub mod ethernet;
pub mod icmp;
pub mod ip;
pub mod socket;
pub mod stack;
pub mod udp;
