//! The service controller: reload-then-restart of a named unit over the
//! service manager's bus, guarded by a minimum restart interval.
//!
//! The guard and the unit-name normalisation are verified exactly; the
//! bus round trips go through trusted wrappers that promise nothing
//! about their outcome.

use vstd::prelude::*;
use vstd::string::StringExecFns;

use crate::errors::Error;
use crate::text::{ends_with_str, is_suffix};

verus! {

// ---------------------------------------------------------------------------
// trusted bus wrappers
// ---------------------------------------------------------------------------

/// Declares the bus connection type so it can appear in signatures;
/// its insides stay opaque.
#[verifier::external_type_specification]
#[verifier::external_body]
pub struct ExConnection(zbus::blocking::Connection);

/// Declares the bus proxy type so it can appear in signatures; its
/// insides stay opaque.
#[verifier::external_type_specification]
#[verifier::external_body]
pub struct ExProxy<'a>(zbus::blocking::Proxy<'a>);

/// Relies on `zbus::blocking::Connection::system`: connects to the
/// system bus; the error is carried as its rendered text.
#[verifier::external_body]
fn connect_system() -> Result<zbus::blocking::Connection, String> {
    match zbus::blocking::Connection::system() {
        Ok(c) => Ok(c),
        Err(e) => Err(e.to_string()),
    }
}

/// Relies on `zbus::blocking::Proxy::new_owned`: builds a proxy for the
/// given destination, object path and interface.
#[verifier::external_body]
fn proxy_new(
    conn: &zbus::blocking::Connection,
    dest: String,
    path: String,
    iface: String,
) -> Result<zbus::blocking::Proxy<'static>, String> {
    match zbus::blocking::Proxy::new_owned(conn.clone(), dest, path, iface) {
        Ok(p) => Ok(p),
        Err(e) => Err(e.to_string()),
    }
}

/// Relies on `zbus::blocking::Proxy::call_method` with an empty body:
/// invokes the named method and discards the reply.
#[verifier::external_body]
fn proxy_call_noarg(p: &zbus::blocking::Proxy<'static>, method: &str) -> Result<(), String> {
    match p.call_method(method, &()) {
        Ok(_) => Ok(()),
        Err(e) => Err(e.to_string()),
    }
}

/// Relies on `zbus::blocking::Proxy::call_method` with two string
/// arguments: invokes the named method and deserializes the replied
/// object path into its text.
#[verifier::external_body]
fn proxy_call_two_strings(
    p: &zbus::blocking::Proxy<'static>,
    method: &str,
    a: &str,
    b: &str,
) -> Result<String, String> {
    match p.call_method(method, &(a, b)) {
        Ok(m) => match m.body().deserialize::<zbus::zvariant::OwnedObjectPath>() {
            Ok(path) => Ok(path.as_str().to_owned()),
            Err(e) => Err(e.to_string()),
        },
        Err(e) => Err(e.to_string()),
    }
}

/// Relies on `zbus::blocking::Proxy::call_method` with one string
/// argument: invokes the named method and deserializes the replied
/// object path into its text.
#[verifier::external_body]
fn proxy_call_one_string(
    p: &zbus::blocking::Proxy<'static>,
    method: &str,
    a: &str,
) -> Result<String, String> {
    match p.call_method(method, &(a,)) {
        Ok(m) => match m.body().deserialize::<zbus::zvariant::OwnedObjectPath>() {
            Ok(path) => Ok(path.as_str().to_owned()),
            Err(e) => Err(e.to_string()),
        },
        Err(e) => Err(e.to_string()),
    }
}

/// Relies on `zbus::blocking::Proxy::get_property` at type `String`.
#[verifier::external_body]
fn proxy_get_property_string(
    p: &zbus::blocking::Proxy<'static>,
    name: &str,
) -> Result<String, String> {
    match p.get_property::<String>(name) {
        Ok(v) => Ok(v),
        Err(e) => Err(e.to_string()),
    }
}

/// Relies on `zbus::blocking::Proxy::get_property` at type `u64`.
#[verifier::external_body]
fn proxy_get_property_u64(
    p: &zbus::blocking::Proxy<'static>,
    name: &str,
) -> Result<u64, String> {
    match p.get_property::<u64>(name) {
        Ok(v) => Ok(v),
        Err(e) => Err(e.to_string()),
    }
}

/// Relies on `zbus::blocking::Proxy::get_property` at type `i32`.
#[verifier::external_body]
fn proxy_get_property_i32(
    p: &zbus::blocking::Proxy<'static>,
    name: &str,
) -> Result<i32, String> {
    match p.get_property::<i32>(name) {
        Ok(v) => Ok(v),
        Err(e) => Err(e.to_string()),
    }
}

/// Relies on `std::time::SystemTime::now` for the wall clock, in whole
/// seconds since the epoch; a clock before the epoch reads as zero.
#[verifier::external_body]
fn clock_now_secs() -> u64 {
    match std::time::SystemTime::now().duration_since(std::time::UNIX_EPOCH) {
        Ok(d) => d.as_secs(),
        Err(_) => 0,
    }
}

// ---------------------------------------------------------------------------
// the controller
// ---------------------------------------------------------------------------

/// The normalised unit name: `.service` is appended when absent.
pub open spec fn unit_name_of(name: Seq<char>) -> Seq<char> {
    if is_suffix(".service"@, name) {
        name
    } else {
        name + ".service"@
    }
}

/// The guard: a restart is allowed when none happened yet, or when at
/// least the minimum interval has passed since the last one.
pub open spec fn restart_allowed(last_restart: u64, min_interval: u64, now: u64) -> bool {
    last_restart == 0 || (now >= last_restart && now - last_restart >= min_interval)
}

/// Controls one named unit of the service manager.
pub struct SystemdService {
    pub service_name: String,
    pub last_restart_time: u64,
    pub min_restart_interval: u64,
}

impl SystemdService {
    /// A controller for the named unit; no restart has happened, the
    /// default minimum interval is one hundred seconds.
    pub fn new(name: &str) -> (s: Self)
        ensures
            s.service_name@ == name@,
            s.last_restart_time == 0,
            s.min_restart_interval == 100,
    {
        SystemdService {
            service_name: name.to_owned(),
            last_restart_time: 0,
            min_restart_interval: 100,
        }
    }

    /// The wall clock, in whole seconds.
    pub fn current_timestamp() -> u64 {
        clock_now_secs()
    }

    /// The wall clock, in whole seconds.
    pub fn current_timestamp_public() -> u64 {
        Self::current_timestamp()
    }

    /// The guard at a given instant.
    pub fn can_restart_at(&self, now: u64) -> (r: bool)
        ensures
            r == restart_allowed(self.last_restart_time, self.min_restart_interval, now),
    {
        if self.last_restart_time == 0 {
            return true;
        }
        now >= self.last_restart_time && now - self.last_restart_time
            >= self.min_restart_interval
    }

    /// The guard at the present instant. Before any restart it always
    /// allows.
    pub fn can_restart(&self) -> (r: bool)
        ensures
            self.last_restart_time == 0 ==> r,
    {
        let now = clock_now_secs();
        self.can_restart_at(now)
    }

    /// The unit name with `.service` appended when absent.
    pub fn unit_name(&self) -> (r: String)
        ensures
            r@ == unit_name_of(self.service_name@),
    {
        if ends_with_str(self.service_name.as_str(), ".service") {
            let mut m = String::new();
            m.append(self.service_name.as_str());
            m
        } else {
            let mut m = String::new();
            m.append(self.service_name.as_str());
            m.append(".service");
            m
        }
    }

    /// A proxy for the service manager itself.
    fn manager_proxy() -> (r: Result<zbus::blocking::Proxy<'static>, Error>)
        ensures
            r matches Err(e) ==> e is Systemd,
    {
        let conn = match connect_system() {
            Ok(c) => c,
            Err(t) => {
                let mut m = "Failed to connect to system bus: ".to_owned();
                m.append(t.as_str());
                return Err(Error::Systemd(m));
            },
        };
        let dest = "org.freedesktop.systemd1".to_owned();
        let path = "/org/freedesktop/systemd1".to_owned();
        let iface = "org.freedesktop.systemd1.Manager".to_owned();
        match proxy_new(&conn, dest, path, iface) {
            Ok(p) => Ok(p),
            Err(t) => {
                let mut m = "Failed to create Manager proxy: ".to_owned();
                m.append(t.as_str());
                Err(Error::Systemd(m))
            },
        }
    }

    /// A proxy for one unit object, at the given interface.
    fn unit_proxy(unit_path: &str, iface: &str) -> (r: Result<
        zbus::blocking::Proxy<'static>,
        Error,
    >)
        ensures
            r matches Err(e) ==> e is Systemd,
    {
        let conn = match connect_system() {
            Ok(c) => c,
            Err(t) => {
                let mut m = "Failed to connect to system bus: ".to_owned();
                m.append(t.as_str());
                return Err(Error::Systemd(m));
            },
        };
        let dest = "org.freedesktop.systemd1".to_owned();
        let path = unit_path.to_owned();
        match proxy_new(&conn, dest, path, iface.to_owned()) {
            Ok(p) => Ok(p),
            Err(t) => {
                let mut m = "Failed to create Unit proxy: ".to_owned();
                m.append(t.as_str());
                Err(Error::Systemd(m))
            },
        }
    }

    /// Ask the manager to reload its configuration.
    pub fn daemon_reload(&self) -> (r: Result<(), Error>)
        ensures
            r matches Err(e) ==> e is Systemd,
    {
        let proxy = match Self::manager_proxy() {
            Ok(p) => p,
            Err(e) => {
                return Err(e);
            },
        };
        match proxy_call_noarg(&proxy, "Reload") {
            Ok(()) => Ok(()),
            Err(t) => {
                let mut m = "daemon-reload failed: ".to_owned();
                m.append(t.as_str());
                Err(Error::Systemd(m))
            },
        }
    }

    /// Ask the manager to restart the unit, replacing conflicting jobs.
    pub fn restart_service(&self) -> (r: Result<(), Error>)
        ensures
            r matches Err(e) ==> e is Systemd,
    {
        let proxy = match Self::manager_proxy() {
            Ok(p) => p,
            Err(e) => {
                return Err(e);
            },
        };
        let unit = self.unit_name();
        match proxy_call_two_strings(&proxy, "RestartUnit", unit.as_str(), "replace") {
            Ok(_job) => Ok(()),
            Err(t) => {
                let mut m = "restart failed: ".to_owned();
                m.append(t.as_str());
                Err(Error::Systemd(m))
            },
        }
    }

    /// Is the unit's state `active`?
    pub fn is_active(&self) -> (r: Result<bool, Error>)
        ensures
            r matches Err(e) ==> e is Systemd,
    {
        let proxy = match Self::manager_proxy() {
            Ok(p) => p,
            Err(e) => {
                return Err(e);
            },
        };
        let unit = self.unit_name();
        let unit_path = match proxy_call_one_string(&proxy, "GetUnit", unit.as_str()) {
            Ok(p) => p,
            Err(t) => {
                let mut m = "Failed to get unit: ".to_owned();
                m.append(t.as_str());
                return Err(Error::Systemd(m));
            },
        };
        let uproxy = match Self::unit_proxy(unit_path.as_str(), "org.freedesktop.systemd1.Unit") {
            Ok(p) => p,
            Err(e) => {
                return Err(e);
            },
        };
        match proxy_get_property_string(&uproxy, "ActiveState") {
            Ok(state) => Ok(crate::text::str_eq(state.as_str(), "active")),
            Err(t) => {
                let mut m = "Failed to get ActiveState: ".to_owned();
                m.append(t.as_str());
                Err(Error::Systemd(m))
            },
        }
    }

    /// Reload, then restart, behind the interval guard: a refusal leaves
    /// the state untouched; only a fully successful restart stamps the
    /// restart time, and then with a nonzero instant.
    pub fn restart_with_reload(&mut self) -> (r: Result<(), Error>)
        ensures
            final(self).service_name == old(self).service_name,
            final(self).min_restart_interval == old(self).min_restart_interval,
            r is Err ==> final(self).last_restart_time == old(self).last_restart_time,
            r matches Err(e) ==> e is Systemd,
            r is Ok ==> final(self).last_restart_time > 0,
    {
        if !self.can_restart() {
            return Err(
                Error::Systemd("Too soon to restart: the minimum interval has not passed".to_owned()),
            );
        }
        if let Err(e) = self.daemon_reload() {
            return Err(e);
        }
        if let Err(e) = self.restart_service() {
            return Err(e);
        }
        let now = clock_now_secs();
        self.last_restart_time = if now == 0 {
            1
        } else {
            now
        };
        Ok(())
    }

    /// The service's bus properties, rendered one per line.
    pub fn get_properties(&self) -> (r: Result<String, Error>)
        ensures
            r matches Err(e) ==> e is Systemd,
    {
        let proxy = match Self::manager_proxy() {
            Ok(p) => p,
            Err(e) => {
                return Err(e);
            },
        };
        let unit = self.unit_name();
        let unit_path = match proxy_call_one_string(&proxy, "GetUnit", unit.as_str()) {
            Ok(p) => p,
            Err(t) => {
                let mut m = "Failed to get unit: ".to_owned();
                m.append(t.as_str());
                return Err(Error::Systemd(m));
            },
        };
        let sproxy = match Self::unit_proxy(
            unit_path.as_str(),
            "org.freedesktop.systemd1.Service",
        ) {
            Ok(p) => p,
            Err(e) => {
                return Err(e);
            },
        };
        let mut out = String::new();
        if let Ok(q) = proxy_get_property_u64(&sproxy, "CPUQuotaPerSecUSec") {
            out.append("CPUQuota=");
            let d = crate::num::u64_to_string(q);
            out.append(d.as_str());
            out.append("\n");
        }
        if let Ok(q) = proxy_get_property_u64(&sproxy, "MemoryMax") {
            out.append("MemoryMax=");
            let d = crate::num::u64_to_string(q);
            out.append(d.as_str());
            out.append("\n");
        }
        if let Ok(n) = proxy_get_property_i32(&sproxy, "Nice") {
            out.append("Nice=");
            let d = crate::num::i32_to_string(n);
            out.append(d.as_str());
            out.append("\n");
        }
        Ok(out)
    }

    /// Seconds since the last restart at a given instant; the maximum
    /// value when none happened yet or the clock ran backwards.
    pub fn time_since_last_restart_at(&self, now: u64) -> (r: u64)
        ensures
            self.last_restart_time == 0 ==> r == u64::MAX,
            self.last_restart_time > 0 && now >= self.last_restart_time ==> r == now
                - self.last_restart_time,
    {
        if self.last_restart_time == 0 {
            return u64::MAX;
        }
        if now < self.last_restart_time {
            return u64::MAX;
        }
        now - self.last_restart_time
    }

    /// Seconds since the last restart, by the wall clock; the maximum
    /// value when none happened yet.
    pub fn time_since_last_restart(&self) -> (r: u64)
        ensures
            self.last_restart_time == 0 ==> r == u64::MAX,
    {
        let now = clock_now_secs();
        self.time_since_last_restart_at(now)
    }

    /// The instant of the last successful restart; zero when none.
    pub fn get_last_restart_time(&self) -> (r: u64)
        ensures
            r == self.last_restart_time,
    {
        self.last_restart_time
    }

    /// Overwrite the last-restart instant.
    pub fn set_last_restart_time(&mut self, timestamp: u64)
        ensures
            final(self).last_restart_time == timestamp,
            final(self).service_name == old(self).service_name,
            final(self).min_restart_interval == old(self).min_restart_interval,
    {
        self.last_restart_time = timestamp;
    }

    /// Overwrite the minimum restart interval.
    pub fn set_min_restart_interval(&mut self, interval: u64)
        ensures
            final(self).min_restart_interval == interval,
            final(self).service_name == old(self).service_name,
            final(self).last_restart_time == old(self).last_restart_time,
    {
        self.min_restart_interval = interval;
    }
}

// ---------------------------------------------------------------------------
// the guard law
// ---------------------------------------------------------------------------

/// Two restarts cannot both pass the guard within one minimum interval:
/// after a successful restart stamped at `t0 > 0`, any attempt at an
/// instant `t1` less than a full interval later is refused.
pub proof fn lemma_restart_guard(t0: u64, min_interval: u64, t1: u64)
    requires
        t0 > 0,
        t1 < t0 + min_interval,
    ensures
        !restart_allowed(t0, min_interval, t1),
{
}

} // verus!
