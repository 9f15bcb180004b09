//! The protocol layers.

pub mod arp;
pub mod bootp;
pub mod dot1q;
pub mod erspan;
pub mod ether;
pub mod geneve;
pub mod gre;
pub mod icmp;
pub mod icmp_echo;
pub mod icmp_echo_reply;
pub mod ip;
pub mod pcap_file;
pub mod raw;
pub mod tcp;
pub mod udp;
