use vstd::prelude::*;
use crate::config::{Configuration, Device, LogLevel, Server};

verus! {

/// Options given on the command line that are passed through to the child.
#[derive(Clone, Debug)]
pub struct Passthrough {
    pub server_port: Option<u16>,
    pub device: Option<Device>,
    pub profile: Option<String>,
    pub config: Option<String>,
}

/// The daemon's command line.
#[derive(Clone, Debug)]
pub struct Arguments {
    /// Path of the daemon's TOML configuration file.
    pub config_file: Option<String>,
    pub log_level: Option<LogLevel>,
    pub passthrough_options: Option<Passthrough>,
    /// Path of the OpenRGB executable.
    pub binary: String,
}

pub open spec fn or_else<T>(first: Option<T>, second: Option<T>) -> Option<T> {
    if first is Some {
        first
    } else {
        second
    }
}

/// The server settings once the command line's are laid over the file's:
/// each one given on the command line replaces the file's, and a server
/// section is created when the file has none.
pub open spec fn merged_server(server: Option<Server>, p: Passthrough) -> Option<Server> {
    if p.server_port is None && p.profile is None && p.config is None {
        server
    } else {
        let base = match server {
            Some(s) => s,
            None => Server { config: None, profile: None, port: None },
        };
        Some(
            Server {
                config: or_else(p.config, base.config),
                profile: or_else(p.profile, base.profile),
                port: or_else(p.server_port, base.port),
            },
        )
    }
}

pub open spec fn devices_view(devices: Option<Vec<Device>>) -> Option<Seq<Device>> {
    match devices {
        Some(v) => Some(v@),
        None => None,
    }
}

/// A device given on the command line comes after the file's devices.
pub open spec fn merged_devices(devices: Option<Seq<Device>>, extra: Option<Device>) -> Option<Seq<Device>> {
    match extra {
        None => devices,
        Some(d) => Some(
            match devices {
                Some(ds) => ds,
                None => Seq::empty(),
            }.push(d),
        ),
    }
}

fn take_or<T>(first: Option<T>, second: Option<T>) -> (r: Option<T>)
    ensures
        r == or_else(first, second),
{
    match first {
        Some(v) => Some(v),
        None => second,
    }
}

/// Lays the command line's options over the configuration file's. The
/// passthrough options win over the file; the log level of the command line
/// only fills in when the file sets none.
pub fn resolve_configuration(
    file: Configuration,
    passthrough: Option<Passthrough>,
    log_level: Option<LogLevel>,
) -> (r: Configuration)
    ensures
        r.log_level == or_else(file.log_level, log_level),
        passthrough is None ==> r.server == file.server && r.devices == file.devices,
        passthrough matches Some(p) ==> r.server == merged_server(file.server, p) && devices_view(
            r.devices,
        ) == merged_devices(devices_view(file.devices), p.device),
{
    let Configuration { log_level: file_level, server, devices } = file;
    let level = take_or(file_level, log_level);
    match passthrough {
        None => Configuration { log_level: level, server, devices },
        Some(p) => {
            let Passthrough { server_port, device, profile, config } = p;
            let server = if server_port.is_none() && profile.is_none() && config.is_none() {
                server
            } else {
                let base = match server {
                    Some(s) => s,
                    None => Server { config: None, profile: None, port: None },
                };
                let Server { config: base_config, profile: base_profile, port: base_port } = base;
                Some(
                    Server {
                        config: take_or(config, base_config),
                        profile: take_or(profile, base_profile),
                        port: take_or(server_port, base_port),
                    },
                )
            };
            let devices = match device {
                None => devices,
                Some(d) => {
                    let mut list = match devices {
                        Some(v) => v,
                        None => Vec::new(),
                    };
                    list.push(d);
                    Some(list)
                },
            };
            Configuration { log_level: level, server, devices }
        },
    }
}

} // verus!
