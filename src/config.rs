use vstd::prelude::*;
use vstd::string::StringExecFns;
use crate::decimal::{decimal, decimal_text};

verus! {

/// Verbosity asked for in the configuration.
#[derive(Clone, Copy, Debug, PartialEq, Eq, Structural)]
pub enum LogLevel {
    Error,
    Warning,
    Notice,
    Informational,
    Debug,
}

impl Default for LogLevel {
    fn default() -> (r: LogLevel)
        ensures
            r == LogLevel::Notice,
    {
        LogLevel::Notice
    }
}

/// The most detailed kind of log record that is let through.
#[derive(Clone, Copy, Debug, PartialEq, Eq, Structural)]
pub enum Verbosity {
    Error,
    Warn,
    Info,
    Debug,
    Trace,
}

/// Settings of the OpenRGB SDK server.
#[derive(Clone, Debug)]
pub struct Server {
    pub config: Option<String>,
    pub profile: Option<String>,
    pub port: Option<u16>,
}

impl Default for Server {
    fn default() -> (r: Server)
        ensures
            r.config is None,
            r.profile is None,
            r.port is None,
    {
        Server { config: None, profile: None, port: None }
    }
}

/// Colors, mode, brightness and size applied to one device (or all).
#[derive(Clone, Debug)]
pub struct Device {
    pub device: Option<String>,
    pub zone: Option<u8>,
    pub color: Option<Vec<String>>,
    pub mode: Option<String>,
    pub brightness: Option<u8>,
    pub size: Option<u64>,
}

/// The resolved configuration of one session.
#[derive(Clone, Debug)]
pub struct Configuration {
    pub log_level: Option<LogLevel>,
    pub server: Option<Server>,
    pub devices: Option<Vec<Device>>,
}

impl Default for Configuration {
    fn default() -> (r: Configuration)
        ensures
            r.log_level is None,
            r.server is None,
            r.devices is None,
    {
        Configuration { log_level: None, server: None, devices: None }
    }
}

pub open spec fn verbosity_spec(level: Option<LogLevel>) -> Verbosity {
    match level {
        None => Verbosity::Info,
        Some(LogLevel::Error) => Verbosity::Error,
        Some(LogLevel::Warning) => Verbosity::Warn,
        Some(LogLevel::Notice) => Verbosity::Info,
        Some(LogLevel::Informational) => Verbosity::Debug,
        Some(LogLevel::Debug) => Verbosity::Trace,
    }
}

/// The verbosity of a session's logging: informational when none is set.
pub fn verbosity_of(level: Option<LogLevel>) -> (r: Verbosity)
    ensures
        r == verbosity_spec(level),
{
    match level {
        None => Verbosity::Info,
        Some(LogLevel::Error) => Verbosity::Error,
        Some(LogLevel::Warning) => Verbosity::Warn,
        Some(LogLevel::Notice) => Verbosity::Info,
        Some(LogLevel::Informational) => Verbosity::Debug,
        Some(LogLevel::Debug) => Verbosity::Trace,
    }
}

pub open spec fn views(v: Seq<String>) -> Seq<Seq<char>> {
    v.map_values(|s: String| s@)
}

/// `flag value` when the value is present, nothing otherwise.
pub open spec fn opt_arg(flag: Seq<char>, value: Option<Seq<char>>) -> Seq<Seq<char>> {
    match value {
        Some(v) => seq![flag, v],
        None => Seq::empty(),
    }
}

pub open spec fn text_of(o: Option<String>) -> Option<Seq<char>> {
    match o {
        Some(s) => Some(s@),
        None => None,
    }
}

pub open spec fn number_of(o: Option<u64>) -> Option<Seq<char>> {
    match o {
        Some(n) => Some(decimal(n as nat)),
        None => None,
    }
}

pub open spec fn widen8(o: Option<u8>) -> Option<u64> {
    match o {
        Some(n) => Some(n as u64),
        None => None,
    }
}

pub open spec fn widen16(o: Option<u16>) -> Option<u64> {
    match o {
        Some(n) => Some(n as u64),
        None => None,
    }
}

/// The parts joined with commas between them.
pub open spec fn join_comma(parts: Seq<String>) -> Seq<char>
    decreases parts.len(),
{
    if parts.len() == 0 {
        Seq::empty()
    } else if parts.len() == 1 {
        parts[0]@
    } else {
        join_comma(parts.drop_last()) + seq![','] + parts.last()@
    }
}

pub open spec fn colors_of(o: Option<Vec<String>>) -> Option<Seq<char>> {
    match o {
        Some(v) => Some(join_comma(v@)),
        None => None,
    }
}

pub open spec fn server_args(s: Server) -> Seq<Seq<char>> {
    opt_arg("--server-port"@, number_of(widen16(s.port))) + opt_arg("--config"@, text_of(s.config))
        + opt_arg("--profile"@, text_of(s.profile))
}

pub open spec fn device_args(d: Device) -> Seq<Seq<char>> {
    opt_arg("--device"@, text_of(d.device)) + opt_arg("--zone"@, number_of(widen8(d.zone)))
        + opt_arg("--color"@, colors_of(d.color)) + opt_arg("--mode"@, text_of(d.mode))
        + opt_arg("--brightness"@, number_of(widen8(d.brightness))) + opt_arg(
        "--size"@,
        number_of(d.size),
    )
}

pub open spec fn devices_args(ds: Seq<Device>) -> Seq<Seq<char>>
    decreases ds.len(),
{
    if ds.len() == 0 {
        Seq::empty()
    } else {
        devices_args(ds.drop_last()) + device_args(ds.last())
    }
}

/// The argument list handed to the child: the server's settings, then each
/// device's, in order.
pub open spec fn config_args(c: Configuration) -> Seq<Seq<char>> {
    (match c.server {
        Some(s) => server_args(s),
        None => Seq::empty(),
    }) + (match c.devices {
        Some(ds) => devices_args(ds@),
        None => Seq::empty(),
    })
}

fn push_arg(args: &mut Vec<String>, flag: &str, value: String)
    ensures
        views(final(args)@) == views(old(args)@) + seq![flag@, value@],
{
    args.push(String::from_str(flag));
    args.push(value);
    assert(views(final(args)@) =~= views(old(args)@) + seq![flag@, value@]);
}

fn push_text(args: &mut Vec<String>, flag: &str, value: &Option<String>)
    ensures
        views(final(args)@) == views(old(args)@) + opt_arg(flag@, text_of(*value)),
{
    match value {
        Some(v) => push_arg(args, flag, v.clone()),
        None => {
            assert(views(old(args)@) + opt_arg(flag@, text_of(*value)) =~= views(old(args)@));
        },
    }
}

fn push_number(args: &mut Vec<String>, flag: &str, value: Option<u64>)
    ensures
        views(final(args)@) == views(old(args)@) + opt_arg(flag@, number_of(value)),
{
    match value {
        Some(n) => push_arg(args, flag, decimal_text(n)),
        None => {
            assert(views(old(args)@) + opt_arg(flag@, number_of(value)) =~= views(old(args)@));
        },
    }
}

fn widen8_exec(o: Option<u8>) -> (r: Option<u64>)
    ensures
        r == widen8(o),
{
    match o {
        Some(n) => Some(n as u64),
        None => None,
    }
}

/// Joins the colors with commas, as the child's `--color` flag takes them.
pub fn join_colors(parts: &Vec<String>) -> (r: String)
    ensures
        r@ == join_comma(parts@),
{
    let mut out = String::new();
    let mut i: usize = 0;
    while i < parts.len()
        invariant
            i <= parts.len(),
            out@ == join_comma(parts@.take(i as int)),
        decreases parts.len() - i,
    {
        assert(parts@.take(i as int + 1).drop_last() =~= parts@.take(i as int));
        if i > 0 {
            out.append(",");
            proof {
                reveal_strlit(",");
            }
        } else {
            assert(out@ =~= Seq::<char>::empty());
        }
        out.append(parts[i].as_str());
        i = i + 1;
    }
    assert(parts@.take(parts.len() as int) =~= parts@);
    out
}

fn push_device(args: &mut Vec<String>, d: &Device)
    ensures
        views(final(args)@) == views(old(args)@) + device_args(*d),
{
    let ghost start = views(args@);
    push_text(args, "--device", &d.device);
    push_number(args, "--zone", widen8_exec(d.zone));
    match &d.color {
        Some(colors) => push_arg(args, "--color", join_colors(colors)),
        None => {},
    }
    push_text(args, "--mode", &d.mode);
    push_number(args, "--brightness", widen8_exec(d.brightness));
    push_number(args, "--size", d.size);
    assert(views(args@) =~= start + device_args(*d));
}

/// The argument list that runs the child with this configuration.
pub fn command_arguments(configuration: &Configuration) -> (r: Vec<String>)
    ensures
        views(r@) == config_args(*configuration),
{
    let mut args: Vec<String> = Vec::new();
    assert(views(args@) =~= Seq::<Seq<char>>::empty());
    match &configuration.server {
        Some(server) => {
            let port = match server.port {
                Some(p) => Some(p as u64),
                None => None,
            };
            push_number(&mut args, "--server-port", port);
            push_text(&mut args, "--config", &server.config);
            push_text(&mut args, "--profile", &server.profile);
            assert(views(args@) =~= server_args(*server));
        },
        None => {},
    }
    let ghost head = views(args@);
    match &configuration.devices {
        Some(devices) => {
            let mut i: usize = 0;
            while i < devices.len()
                invariant
                    i <= devices.len(),
                    views(args@) == head + devices_args(devices@.take(i as int)),
                decreases devices.len() - i,
            {
                assert(devices@.take(i as int + 1).drop_last() =~= devices@.take(i as int));
                push_device(&mut args, &devices[i]);
                assert(head + devices_args(devices@.take(i as int)) + device_args(devices@[i as int])
                    =~= head + devices_args(devices@.take(i as int + 1)));
                i = i + 1;
            }
            assert(devices@.take(devices.len() as int) =~= devices@);
        },
        None => {
            assert(head =~= head + Seq::<Seq<char>>::empty());
        },
    }
    args
}

} // verus!
