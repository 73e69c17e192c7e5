//! LAN discovery via mDNS: what a resolved service record says about a streaming host.

use vstd::prelude::*;

use crate::text;

verus! {

/// mDNS service type that hosts advertise.
pub const SERVICE_TYPE: &'static str = "_punktfunk._udp.local.";

/// A host that can be connected to.
#[derive(Clone, Debug)]
pub struct DiscoveredHost {
    pub name: String,
    pub addr: String,
    pub port: u16,
    /// Management API port, where the host advertises one.
    pub mgmt_port: Option<u16>,
    /// Wake-on-LAN MACs.
    pub mac: Vec<String>,
}

/// Trusted: `mdns_sd::ResolvedService` is a record as mDNS resolved it; nothing is claimed of what
/// is inside but through the functions below.
#[verifier::external_type_specification]
#[verifier::external_body]
pub struct ExResolvedService(mdns_sd::ResolvedService);

/// Trusted: `mdns_sd::TxtProperties` holds a record's TXT properties; nothing is claimed of what is
/// inside but through the functions below.
#[verifier::external_type_specification]
#[verifier::external_body]
pub struct ExTxtProperties(mdns_sd::TxtProperties);

/// The IPv4 addresses of a resolved service, each in dotted-quad text.
pub uninterp spec fn service_ipv4(info: mdns_sd::ResolvedService) -> Set<Seq<char>>;

/// The full name of a resolved service.
pub uninterp spec fn service_fullname(info: mdns_sd::ResolvedService) -> Seq<char>;

/// The port of a resolved service.
pub uninterp spec fn service_port(info: mdns_sd::ResolvedService) -> u16;

/// The TXT properties of a resolved service, as `txt_contents` has them.
pub uninterp spec fn service_txt(info: mdns_sd::ResolvedService) -> Map<Seq<char>, Seq<char>>;

/// What TXT properties hold: from each key, in lower case, to the text of its value.
pub uninterp spec fn txt_contents(props: mdns_sd::TxtProperties) -> Map<Seq<char>, Seq<char>>;

/// Trusted: `mdns_sd::ResolvedService::get_fullname` returns the record's full name.
pub assume_specification[ mdns_sd::ResolvedService::get_fullname ](
    info: &mdns_sd::ResolvedService,
) -> (r: &str)
    ensures
        r@ == service_fullname(*info),
;

/// Trusted: `mdns_sd::ResolvedService::get_port` returns the record's port.
pub assume_specification[ mdns_sd::ResolvedService::get_port ](
    info: &mdns_sd::ResolvedService,
) -> (r: u16)
    ensures
        r == service_port(*info),
;

/// Trusted: `mdns_sd::ResolvedService::get_properties` returns the record's TXT properties.
pub assume_specification[ mdns_sd::ResolvedService::get_properties ](
    info: &mdns_sd::ResolvedService,
) -> (r: &mdns_sd::TxtProperties)
    ensures
        txt_contents(*r) == service_txt(*info),
;

/// Trusted: `mdns_sd::ResolvedService::get_addresses_v4` returns the record's IPv4 addresses; here
/// they are handed out in dotted-quad text. Their order is a hash set's and is left unsaid.
#[verifier::external_body]
fn addresses_v4(info: &mdns_sd::ResolvedService) -> (r: Vec<String>)
    ensures
        r@.map_values(|a: String| a@).to_set() == service_ipv4(*info),
{
    info.get_addresses_v4().iter().map(ToString::to_string).collect()
}

/// Whether `key` is made of lower-case ASCII letters only.
pub open spec fn is_lower_key(key: Seq<char>) -> bool {
    forall|i: int| 0 <= i < key.len() ==> 'a' <= #[trigger] key[i] <= 'z'
}

/// Trusted: `mdns_sd::TxtProperties::get_property_val_str` looks a key up without regard to case
/// and returns the text of its value, or nothing where there is no such key. A value that is
/// absent or not UTF-8 counts as the empty text.
pub assume_specification<'a>[ mdns_sd::TxtProperties::get_property_val_str ](
    props: &'a mdns_sd::TxtProperties,
    key: &str,
) -> (r: Option<&'a str>)
    requires
        is_lower_key(key@),
    ensures
        r is Some <==> txt_contents(*props).contains_key(key@),
        r matches Some(v) ==> v@ == txt_contents(*props)[key@],
;

/// The management port that a TXT value gives: the number it writes, if it writes one.
pub open spec fn mgmt_port_of(value: Option<Seq<char>>) -> Option<u16> {
    match value {
        Some(v) => text::u16_value(v),
        None => None,
    }
}

/// The MACs that a TXT value lists, separated by commas.
pub open spec fn macs_of(value: Option<Seq<char>>) -> Seq<Seq<char>> {
    match value {
        Some(v) => text::list_items(v, ','),
        None => Seq::empty(),
    }
}

/// The value of `key` in a record's TXT properties.
pub open spec fn txt_value(txt: Map<Seq<char>, Seq<char>>, key: Seq<char>) -> Option<Seq<char>> {
    if txt.contains_key(key) {
        Some(txt[key])
    } else {
        None
    }
}

impl DiscoveredHost {
    /// The MACs as text.
    pub open spec fn macs(self) -> Seq<Seq<char>> {
        self.mac@.map_values(|m: String| m@)
    }
}

/// The view of an optional text.
pub open spec fn opt_text(v: Option<&str>) -> Option<Seq<char>> {
    match v {
        Some(t) => Some(t@),
        None => None,
    }
}

/// The first of `addrs`, and the instance name that `fullname` starts with; nothing where there
/// is no address.
pub fn pick_addr_and_name(fullname: &str, addrs: &Vec<String>) -> (r: Option<(String, String)>)
    ensures
        r is None <==> addrs@.len() == 0,
        r matches Some((addr, name)) ==> {
            &&& addr@ == addrs@[0]@
            &&& name@ == text::first_field(fullname@, '.')
        },
{
    if addrs.len() == 0 {
        return None;
    }
    Some((addrs[0].clone(), text::before_first(fullname, '.').to_owned()))
}

/// The host that a record with these parts describes.
pub fn host_from_parts(
    name: String,
    addr: String,
    port: u16,
    mgmt: Option<&str>,
    mac: Option<&str>,
) -> (h: DiscoveredHost)
    ensures
        h.name == name,
        h.addr == addr,
        h.port == port,
        h.mgmt_port == mgmt_port_of(opt_text(mgmt)),
        h.macs() == macs_of(opt_text(mac)),
{
    let mgmt_port = match mgmt {
        Some(v) => text::parse_u16(v),
        None => None,
    };
    let macs = match mac {
        Some(v) => text::split_list(v, ','),
        None => Vec::new(),
    };
    let h = DiscoveredHost { name, addr, port, mgmt_port, mac: macs };
    assert(h.macs() =~= macs_of(opt_text(mac)));
    h
}

/// IPv4 address and short instance name of a resolved record; nothing where it has no IPv4
/// address. Which of several addresses is taken is left open.
pub fn addr_and_name(info: &mdns_sd::ResolvedService) -> (r: Option<(String, String)>)
    ensures
        r is None <==> service_ipv4(*info) == Set::<Seq<char>>::empty(),
        r matches Some((addr, name)) ==> {
            &&& service_ipv4(*info).contains(addr@)
            &&& name@ == text::first_field(service_fullname(*info), '.')
        },
{
    let addrs = addresses_v4(info);
    proof {
        let texts = addrs@.map_values(|a: String| a@);
        if addrs@.len() == 0 {
            assert(texts.to_set() =~= Set::<Seq<char>>::empty());
        } else {
            assert(texts[0] == addrs@[0]@);
            assert(texts.to_set().contains(texts[0]));
        }
    }
    pick_addr_and_name(info.get_fullname(), &addrs)
}

/// Turns a resolved record into a host, or nothing if it is not usable, having no IPv4 address.
pub fn parse_discovery(info: &mdns_sd::ResolvedService) -> (r: Option<DiscoveredHost>)
    ensures
        r is None <==> service_ipv4(*info) == Set::<Seq<char>>::empty(),
        r matches Some(h) ==> {
            &&& h.name@ == text::first_field(service_fullname(*info), '.')
            &&& service_ipv4(*info).contains(h.addr@)
            &&& h.port == service_port(*info)
            &&& h.mgmt_port == mgmt_port_of(txt_value(service_txt(*info), "mgmt"@))
            &&& h.macs() == macs_of(txt_value(service_txt(*info), "mac"@))
        },
{
    let (addr, name) = match addr_and_name(info) {
        Some(found) => found,
        None => {
            return None;
        },
    };
    let props = info.get_properties();
    proof {
        reveal_strlit("mgmt");
        reveal_strlit("mac");
    }
    let mgmt = props.get_property_val_str("mgmt");
    let mac = props.get_property_val_str("mac");
    Some(host_from_parts(name, addr, info.get_port(), mgmt, mac))
}

/// What browsing for hosts brought.
pub enum BrowseEvent {
    /// Browsing was started, or could not be.
    Started { ok: bool },
    /// A service was resolved; nothing where its record is no usable host.
    Resolved { host: Option<DiscoveredHost> },
    /// Any other news of the search.
    Other,
    /// The search is over.
    Disconnected,
    /// A host was handed on, or nobody takes hosts any more.
    HandedOn { ok: bool },
}

/// What the browsing thread does next.
pub enum BrowseAction {
    /// Wait for news of the search.
    Receive,
    /// Hand a host on.
    HandOn { host: DiscoveredHost },
    /// Shut the search down.
    Shutdown,
}

/// What one step of browsing asks for.
pub open spec fn browse_action(event: BrowseEvent) -> BrowseAction {
    match event {
        BrowseEvent::Started { ok: true } => BrowseAction::Receive,
        BrowseEvent::Started { ok: false } => BrowseAction::Shutdown,
        BrowseEvent::Resolved { host: Some(host) } => BrowseAction::HandOn { host },
        BrowseEvent::Resolved { host: None } => BrowseAction::Receive,
        BrowseEvent::Other => BrowseAction::Receive,
        BrowseEvent::Disconnected => BrowseAction::Shutdown,
        BrowseEvent::HandedOn { ok: true } => BrowseAction::Receive,
        BrowseEvent::HandedOn { ok: false } => BrowseAction::Shutdown,
    }
}

/// Decides one step of browsing: it goes on until it cannot be started, the search is over or
/// nobody takes hosts any more, and hands on every usable host.
pub fn on_browse_event(event: BrowseEvent) -> (action: BrowseAction)
    ensures
        action == browse_action(event),
{
    match event {
        BrowseEvent::Started { ok } => if ok {
            BrowseAction::Receive
        } else {
            BrowseAction::Shutdown
        },
        BrowseEvent::Resolved { host } => match host {
            Some(host) => BrowseAction::HandOn { host },
            None => BrowseAction::Receive,
        },
        BrowseEvent::Other => BrowseAction::Receive,
        BrowseEvent::Disconnected => BrowseAction::Shutdown,
        BrowseEvent::HandedOn { ok } => if ok {
            BrowseAction::Receive
        } else {
            BrowseAction::Shutdown
        },
    }
}

/// Whether an event ends the browse: it could not be started, the search is over, or nobody takes
/// hosts any more.
pub open spec fn ends_browse(event: BrowseEvent) -> bool {
    match event {
        BrowseEvent::Started { ok } => !ok,
        BrowseEvent::Disconnected => true,
        BrowseEvent::HandedOn { ok } => !ok,
        _ => false,
    }
}

/// How many of these events come before the first that ends the browse.
pub open spec fn before_end(events: Seq<BrowseEvent>) -> nat
    decreases events.len(),
{
    if events.len() == 0 || ends_browse(events[0]) {
        0
    } else {
        1 + before_end(events.drop_first())
    }
}

/// The usable hosts among these events, in order and once for each event.
pub open spec fn usable_hosts(events: Seq<BrowseEvent>) -> Seq<DiscoveredHost>
    decreases events.len(),
{
    if events.len() == 0 {
        seq![]
    } else {
        let before = usable_hosts(events.drop_last());
        match events.last() {
            BrowseEvent::Resolved { host: Some(host) } => before.push(host),
            _ => before,
        }
    }
}

/// What a browse asks for as these events come in one after the other, where `Shutdown` ends it.
pub open spec fn browse_run(events: Seq<BrowseEvent>) -> Seq<BrowseAction>
    decreases events.len(),
{
    if events.len() == 0 {
        seq![]
    } else {
        let action = browse_action(events[0]);
        if action is Shutdown {
            seq![action]
        } else {
            seq![action] + browse_run(events.drop_first())
        }
    }
}

/// The hosts that a browse hands on as these events come in one after the other.
pub open spec fn handed_on(events: Seq<BrowseEvent>) -> Seq<DiscoveredHost>
    decreases events.len(),
{
    if events.len() == 0 {
        seq![]
    } else {
        let rest = handed_on(events.drop_first());
        match browse_action(events[0]) {
            BrowseAction::HandOn { host } => seq![host] + rest,
            BrowseAction::Receive => rest,
            BrowseAction::Shutdown => seq![],
        }
    }
}

proof fn lemma_usable_hosts_first(events: Seq<BrowseEvent>)
    requires
        events.len() > 0,
    ensures
        usable_hosts(events) == match events[0] {
            BrowseEvent::Resolved { host: Some(host) } => seq![host] + usable_hosts(
                events.drop_first(),
            ),
            _ => usable_hosts(events.drop_first()),
        },
    decreases events.len(),
{
    if events.len() == 1 {
        assert(events.drop_last() =~= Seq::<BrowseEvent>::empty());
        assert(events.drop_first() =~= Seq::<BrowseEvent>::empty());
        assert(usable_hosts(events.drop_last()) =~= Seq::<DiscoveredHost>::empty());
        assert(usable_hosts(events) =~= match events[0] {
            BrowseEvent::Resolved { host: Some(host) } => seq![host] + usable_hosts(
                events.drop_first(),
            ),
            _ => usable_hosts(events.drop_first()),
        });
    } else {
        lemma_usable_hosts_first(events.drop_last());
        assert(events.drop_last().drop_first() =~= events.drop_first().drop_last());
        assert(usable_hosts(events) =~= match events[0] {
            BrowseEvent::Resolved { host: Some(host) } => seq![host] + usable_hosts(
                events.drop_first(),
            ),
            _ => usable_hosts(events.drop_first()),
        });
    }
}

/// A browse hands on exactly the usable hosts that were resolved before the first event that ends
/// it, in order and once each. Records without an IPv4 address and other news end nothing, and
/// nothing is asked for after the shutdown.
pub proof fn law_browse(events: Seq<BrowseEvent>)
    ensures
        handed_on(events) == usable_hosts(events.take(before_end(events) as int)),
        before_end(events) <= events.len(),
        forall|i: int| 0 <= i < before_end(events) ==> !ends_browse(#[trigger] events[i]),
        before_end(events) < events.len() ==> ends_browse(events[before_end(events) as int]),
        browse_run(events).len() == if before_end(events) < events.len() {
            before_end(events) + 1
        } else {
            before_end(events)
        },
        forall|i: int|
            0 <= i < browse_run(events).len() ==> {
                let action = #[trigger] browse_run(events)[i];
                &&& action == browse_action(events[i])
                &&& action is Shutdown <==> i == before_end(events)
            },
    decreases events.len(),
{
    if events.len() > 0 && !ends_browse(events[0]) {
        let rest = events.drop_first();
        law_browse(rest);
        let n = before_end(events) as int;
        lemma_usable_hosts_first(events.take(n));
        assert(events.take(n).drop_first() =~= rest.take(n - 1));
        assert forall|i: int| 0 <= i < n implies !ends_browse(#[trigger] events[i]) by {
            if i > 0 {
                assert(events[i] == rest[i - 1]);
            }
        }
        assert forall|i: int| 0 < i < browse_run(events).len() implies #[trigger] browse_run(
            events,
        )[i] == browse_run(rest)[i - 1] by {}
    } else {
        assert(events.take(0) =~= Seq::<BrowseEvent>::empty());
    }
}

/// A host's MACs are trimmed, not empty and free of commas, whatever the record says, and two
/// lists joined by a comma give the MACs of both in order.
pub proof fn law_macs(value: Option<Seq<char>>, a: Seq<char>, b: Seq<char>)
    ensures
        forall|i: int|
            0 <= i < macs_of(value).len() ==> {
                let mac = #[trigger] macs_of(value)[i];
                &&& mac.len() > 0
                &&& text::trimmed(mac) == mac
                &&& !mac.contains(',')
            },
        macs_of(Some(a.push(',') + b)) == macs_of(Some(a)) + macs_of(Some(b)),
{
    match value {
        Some(v) => text::law_list_items(v, ','),
        None => {},
    }
    text::law_list_items_join(a, b, ',');
}

/// A management port is the number that its value writes; a value that writes none, or a number no
/// port can have, gives none, and neither does a value that is missing.
pub proof fn law_mgmt_port(port: nat)
    ensures
        port <= 65535 ==> mgmt_port_of(Some(text::written(port))) == Some(port as u16),
        port > 65535 ==> mgmt_port_of(Some(text::written(port))) is None,
        mgmt_port_of(Some(Seq::empty())) is None,
        mgmt_port_of(None) is None,
{
    text::law_u16_read_back(port);
    text::law_no_number(Seq::empty(), 0);
}

/// A value without a comma lists one MAC, its trimmed text, or none where that is empty; a value
/// that is missing lists none.
pub proof fn law_single_mac(value: Seq<char>)
    requires
        !value.contains(','),
    ensures
        text::trimmed(value).len() > 0 ==> macs_of(Some(value)) == seq![text::trimmed(value)],
        text::trimmed(value).len() == 0 ==> macs_of(Some(value)).len() == 0,
        macs_of(None).len() == 0,
{
    text::law_list_of_one(value, ',');
}

/// A property is looked up under its own key: what stands under other keys does not matter.
pub proof fn law_txt_value(
    txt: Map<Seq<char>, Seq<char>>,
    key: Seq<char>,
    value: Seq<char>,
    other: Seq<char>,
    stray: Seq<char>,
)
    ensures
        txt_value(txt.insert(key, value), key) == Some(value),
        txt_value(txt.remove(key), key) is None,
        key != other ==> txt_value(txt.insert(other, stray), key) == txt_value(txt, key),
{
}

/// Hosts are searched for as the punktfunk service, over UDP, in the local domain.
pub proof fn law_service_type()
    ensures
        SERVICE_TYPE@ == "_punktfunk"@ + "._udp"@ + ".local."@,
{
    reveal_strlit("_punktfunk._udp.local.");
    reveal_strlit("_punktfunk");
    reveal_strlit("._udp");
    reveal_strlit(".local.");
    assert(SERVICE_TYPE@ =~= "_punktfunk"@ + "._udp"@ + ".local."@);
}

} // verus!
