//! The modules, one file each.

pub mod docker;
pub mod podman;
pub mod k8s;
pub mod stiva;
pub mod postgres;
pub mod mount;
pub mod sysctl;
pub mod redis;
pub mod cron;
pub mod acme;
pub mod wireguard;
pub mod restic;
pub mod edge;
pub mod nftables;
pub mod aegis;
pub mod daimon;
pub mod nginx;
pub mod ark;
pub mod hoosh;
pub mod nein;
pub mod yukti;
