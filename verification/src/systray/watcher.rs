//! The StatusNotifierWatcher registry of items and hosts.
//!
//! The D-Bus plumbing (reading the sender from the message header, emitting the
//! signals and tray events) stays with the caller; this type decides what is
//! registered and which signal is owed.
use vstd::prelude::*;

use crate::text::strings_view;

verus! {

/// The StatusNotifierItem protocol version (always 0 for this specification).
pub const PROTOCOL_VERSION: i32 = 0;

/// No name occurs twice.
pub open spec fn distinct(s: Seq<Seq<char>>) -> bool {
    forall|i: int, j: int| 0 <= i < s.len() && 0 <= j < s.len() && i != j ==> s[i] != s[j]
}

/// The registry after registering `name`: unchanged if present, else `name` appended.
pub open spec fn register_spec(reg: Seq<Seq<char>>, name: Seq<char>) -> Seq<Seq<char>> {
    if reg.contains(name) {
        reg
    } else {
        reg.push(name)
    }
}

/// The identifier under which an item registers: a service given as an object path
/// (starting with `/`) is prefixed by the sender's bus name; a bus name stands alone.
/// `None` when an object path comes without a sender.
pub open spec fn full_service_spec(sender: Option<Seq<char>>, service: Seq<char>) -> Option<Seq<char>> {
    if service.len() > 0 && service[0] == '/' {
        match sender {
            Some(s) => Some(s + service),
            None => None,
        }
    } else {
        Some(service)
    }
}

/// Errors answered to D-Bus callers of the watcher.
#[derive(Debug, Clone, PartialEq, Eq)]
pub enum WatcherError {
    /// The request failed; the text says why.
    Failed(String),
}

/// The central registry of StatusNotifierItems and StatusNotifierHosts.
pub struct StatusNotifierWatcher {
    registered_items: Vec<String>,
    registered_hosts: Vec<String>,
}

impl StatusNotifierWatcher {
    #[verifier::type_invariant]
    spec fn inv(self) -> bool {
        &&& distinct(strings_view(self.registered_items@))
        &&& distinct(strings_view(self.registered_hosts@))
    }

    /// Registered item identifiers, in registration order.
    pub closed spec fn items(&self) -> Seq<Seq<char>> {
        strings_view(self.registered_items@)
    }

    /// Registered host names, in registration order.
    pub closed spec fn hosts(&self) -> Seq<Seq<char>> {
        strings_view(self.registered_hosts@)
    }

    /// A watcher with no items and `initial_host` registered.
    pub fn with_initial_host(initial_host: String) -> (res: Self)
        ensures
            res.items() == Seq::<Seq<char>>::empty(),
            res.hosts() == seq![initial_host@],
    {
        let mut hosts: Vec<String> = Vec::new();
        hosts.push(initial_host);
        let res = StatusNotifierWatcher { registered_items: Vec::new(), registered_hosts: hosts };
        assert(strings_view(res.registered_items@) =~= Seq::<Seq<char>>::empty());
        assert(strings_view(res.registered_hosts@) =~= seq![hosts@[0]@]);
        res
    }

    /// Registers a StatusNotifierItem.
    ///
    /// `sender` is the bus name of the caller, if the message header carries one.
    /// Returns the full identifier when it was newly registered (the caller then
    /// announces it), `None` when it was already registered.
    pub fn register_status_notifier_item(&mut self, sender: Option<String>, service: String) -> (res: Result<Option<String>, WatcherError>)
        ensures
            match full_service_spec(
                match sender {
                    Some(s) => Some(s@),
                    None => None,
                },
                service@,
            ) {
                None => res matches Err(WatcherError::Failed(m)) && m@ == "No sender in D-Bus message header"@
                    && final(self).items() == old(self).items(),
                Some(full) => {
                    &&& final(self).items() == register_spec(old(self).items(), full)
                    &&& match res {
                        Ok(Some(n)) => n@ == full && !old(self).items().contains(full),
                        Ok(None) => old(self).items().contains(full),
                        Err(_) => false,
                    }
                },
            },
            final(self).hosts() == old(self).hosts(),
    {
        proof { use_type_invariant(&*self); }
        let is_path = service.as_str().unicode_len() > 0 && service.as_str().get_char(0) == '/';
        let full_service = if is_path {
            match sender {
                Some(s) => {
                    let mut full = s;
                    full.append(service.as_str());
                    full
                },
                None => {
                    return Err(WatcherError::Failed(String::from_str("No sender in D-Bus message header")));
                },
            }
        } else {
            service
        };
        if contains(&self.registered_items, &full_service) {
            Ok(None)
        } else {
            let announced = full_service.clone();
            let mut items: Vec<String> = Vec::new();
            std::mem::swap(&mut items, &mut self.registered_items);
            push_new(&mut items, full_service);
            self.registered_items = items;
            Ok(Some(announced))
        }
    }

    /// Registers a StatusNotifierHost. Returns whether the caller owes the
    /// `StatusNotifierHostRegistered` signal: the host is new and none was registered before.
    pub fn register_status_notifier_host(&mut self, service: String) -> (res: bool)
        ensures
            final(self).hosts() == register_spec(old(self).hosts(), service@),
            final(self).items() == old(self).items(),
            res == (old(self).hosts().len() == 0 && !old(self).hosts().contains(service@)),
    {
        proof { use_type_invariant(&*self); }
        let was_empty = self.registered_hosts.len() == 0;
        if contains(&self.registered_hosts, &service) {
            false
        } else {
            let mut hosts: Vec<String> = Vec::new();
            std::mem::swap(&mut hosts, &mut self.registered_hosts);
            push_new(&mut hosts, service);
            self.registered_hosts = hosts;
            was_empty
        }
    }

    /// All registered item identifiers.
    pub fn registered_status_notifier_items(&self) -> (res: Vec<String>)
        ensures
            strings_view(res@) == self.items(),
            distinct(strings_view(res@)),
    {
        proof { use_type_invariant(self); }
        let res = self.registered_items.clone();
        assert(strings_view(res@) =~= strings_view(self.registered_items@));
        res
    }

    /// Whether at least one host is registered.
    pub fn is_status_notifier_host_registered(&self) -> (res: bool)
        ensures
            res == (self.hosts().len() > 0),
    {
        self.registered_hosts.len() > 0
    }

    /// The protocol version.
    pub fn protocol_version(&self) -> (res: i32)
        ensures
            res == 0,
    {
        PROTOCOL_VERSION
    }
}

/// Whether `v` holds a string equal to `s`.
fn contains(v: &Vec<String>, s: &String) -> (res: bool)
    ensures
        res == strings_view(v@).contains(s@),
{
    let mut i: usize = 0;
    while i < v.len()
        invariant
            i <= v@.len(),
            forall|k: int| 0 <= k < i ==> v@[k]@ != s@,
        decreases v.len() - i,
    {
        if v[i] == *s {
            assert(strings_view(v@)[i as int] == s@);
            return true;
        }
        i = i + 1;
    }
    assert forall|k: int| 0 <= k < strings_view(v@).len() implies strings_view(v@)[k] != s@ by {
        assert(strings_view(v@)[k] == v@[k]@);
    }
    false
}

/// Appends a string that `v` does not hold yet.
fn push_new(v: &mut Vec<String>, s: String)
    requires
        distinct(strings_view(old(v)@)),
        !strings_view(old(v)@).contains(s@),
    ensures
        strings_view(final(v)@) == strings_view(old(v)@).push(s@),
        distinct(strings_view(final(v)@)),
{
    let ghost sv = s@;
    v.push(s);
    assert(strings_view(v@) =~= strings_view(old(v)@).push(sv));
    assert forall|i: int, j: int| 0 <= i < strings_view(v@).len() && 0 <= j < strings_view(v@).len() && i != j
        implies strings_view(v@)[i] != strings_view(v@)[j] by {
        let n = strings_view(old(v)@).len() as int;
        if i == n {
            assert(strings_view(old(v)@)[j] == strings_view(v@)[j]);
        } else if j == n {
            assert(strings_view(old(v)@)[i] == strings_view(v@)[i]);
        }
    }
}

/// The identifier an item registers under. A service given as an object path (starting
/// with `/`), whatever the path, is registered as the sender's bus name followed by that
/// path, and fails without a sender; any other service is registered as given, whatever
/// the sender. Either way, a registered identifier ends with the service.
pub proof fn lemma_item_identifier(sender: Option<Seq<char>>, service: Seq<char>)
    ensures
        service.len() > 0 && service[0] == '/' ==> match sender {
            Some(s) => full_service_spec(sender, service) == Some(s + service),
            None => full_service_spec(sender, service) is None,
        },
        !(service.len() > 0 && service[0] == '/') ==> full_service_spec(sender, service) == Some(service),
        full_service_spec(sender, service) matches Some(full) ==> full.len() >= service.len()
            && full.subrange(full.len() - service.len(), full.len() as int) == service,
{
    if let Some(full) = full_service_spec(sender, service) {
        if let Some(s) = sender {
            if service.len() > 0 && service[0] == '/' {
                assert(full.subrange(full.len() - service.len(), full.len() as int) =~= service);
            } else {
                assert(full.subrange(0, full.len() as int) =~= service);
            }
        } else {
            assert(full.subrange(0, full.len() as int) =~= service);
        }
    }
}

/// Registering the same name twice leaves the registry as registering it once.
pub proof fn lemma_register_idempotent(reg: Seq<Seq<char>>, name: Seq<char>)
    ensures
        register_spec(register_spec(reg, name), name) == register_spec(reg, name),
{
    if !reg.contains(name) {
        assert(reg.push(name)[reg.len() as int] == name);
    }
}

/// After registering, the name is registered, nothing registered before is lost,
/// and no name occurs twice.
pub proof fn lemma_register_keeps_registry(reg: Seq<Seq<char>>, name: Seq<char>)
    requires
        distinct(reg),
    ensures
        register_spec(reg, name).contains(name),
        forall|x: Seq<char>| reg.contains(x) ==> register_spec(reg, name).contains(x),
        distinct(register_spec(reg, name)),
{
    if !reg.contains(name) {
        let r = reg.push(name);
        assert(r[reg.len() as int] == name);
        assert forall|x: Seq<char>| reg.contains(x) implies r.contains(x) by {
            let k = choose|k: int| 0 <= k < reg.len() && reg[k] == x;
            assert(r[k] == x);
        }
    }
}

} // verus!
