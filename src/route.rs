//! Routes: the normalized model, its attribute-message form, and the
//! translation between the two.
use vstd::prelude::*;
use crate::addr::{
    addr_to_ip, ip_of, same_version, unspecified, unspecified_of, wire_of, Family, IpAddress,
    WireAddress,
};

verus! {

/// The table that a new route goes to when its table does not fit the
/// header's 8-bit field (the main table).
pub const RT_TABLE_MAIN: u8 = 254;

/// One entry of a kernel forwarding table.
#[derive(Clone, Copy, Debug, PartialEq, Eq, Structural)]
pub struct Route {
    /// The destination network; the unspecified address for a default route.
    pub destination: IpAddress,
    pub prefix: u8,
    pub source: Option<IpAddress>,
    pub source_prefix: u8,
    /// The preferred source address of outgoing packets.
    pub source_hint: Option<IpAddress>,
    pub gateway: Option<IpAddress>,
    pub ifindex: Option<u32>,
    pub table: u32,
    pub metric: Option<u32>,
}

/// One typed attribute of a route message.
#[derive(Clone, Copy, Debug, PartialEq, Eq, Structural)]
pub enum RouteAttribute {
    Destination(WireAddress),
    Source(WireAddress),
    PrefSource(WireAddress),
    Gateway(WireAddress),
    Oif(u32),
    Priority(u32),
    Table(u32),
    /// An attribute that routes do not read.
    Other,
}

/// A route message: its fixed header and its ordered attributes.
#[derive(Clone, Debug)]
pub struct RouteMessage {
    pub address_family: Family,
    pub destination_prefix_length: u8,
    pub source_prefix_length: u8,
    pub table: u8,
    pub attributes: Vec<RouteAttribute>,
}

/// Why a route could not be added or deleted.
#[derive(Clone, Copy, Debug, PartialEq, Eq, Structural)]
pub enum RouteError {
    /// The gateway is not of the destination's IP version.
    GatewayVersion,
    /// The preferred source is not of the destination's IP version.
    SourceHintVersion,
    /// The source prefix is not of the destination's IP version.
    SourceVersion,
    /// No listed route matches the one to delete.
    NotFound,
}

/// What the attributes of a message say, field by field.
#[derive(Clone, Copy, Debug, PartialEq, Eq, Structural)]
pub struct RouteFields {
    pub destination: Option<IpAddress>,
    pub source: Option<IpAddress>,
    pub source_hint: Option<IpAddress>,
    pub gateway: Option<IpAddress>,
    pub ifindex: Option<u32>,
    pub metric: Option<u32>,
    pub table: u32,
}

/// One attribute read over the fields read so far: a later attribute of a
/// kind replaces an earlier one; an address of another kind clears the field.
pub open spec fn apply_route_attr(f: RouteFields, a: RouteAttribute) -> RouteFields {
    match a {
        RouteAttribute::Destination(x) => RouteFields { destination: ip_of(x), ..f },
        RouteAttribute::Source(x) => RouteFields { source: ip_of(x), ..f },
        RouteAttribute::PrefSource(x) => RouteFields { source_hint: ip_of(x), ..f },
        RouteAttribute::Gateway(x) => RouteFields { gateway: ip_of(x), ..f },
        RouteAttribute::Oif(i) => RouteFields { ifindex: Some(i), ..f },
        RouteAttribute::Priority(p) => RouteFields { metric: Some(p), ..f },
        RouteAttribute::Table(t) => RouteFields { table: t, ..f },
        RouteAttribute::Other => f,
    }
}

/// The fields that a list of attributes gives, the table starting from the
/// header's.
pub open spec fn fields_of(attrs: Seq<RouteAttribute>, table: u32) -> RouteFields
    decreases attrs.len(),
{
    if attrs.len() == 0 {
        RouteFields {
            destination: None,
            source: None,
            source_hint: None,
            gateway: None,
            ifindex: None,
            metric: None,
            table,
        }
    } else {
        apply_route_attr(fields_of(attrs.drop_last(), table), attrs.last())
    }
}

pub open spec fn message_fields(m: RouteMessage) -> RouteFields {
    fields_of(m.attributes@, m.table as u32)
}

/// A message can be read as a route: it names its destination, or its
/// family has an unspecified address to stand for it.
pub open spec fn decodable(m: RouteMessage) -> bool {
    message_fields(m).destination is Some || unspecified_of(m.address_family) is Some
}

/// The route that a message describes.
pub open spec fn route_of(m: RouteMessage) -> Route {
    let f = message_fields(m);
    Route {
        destination: match f.destination {
            Some(d) => d,
            None => unspecified_of(m.address_family).unwrap(),
        },
        prefix: m.destination_prefix_length,
        source: f.source,
        source_prefix: m.source_prefix_length,
        source_hint: f.source_hint,
        gateway: f.gateway,
        ifindex: f.ifindex,
        table: f.table,
        metric: f.metric,
    }
}

impl RouteFields {
    fn apply(self, a: RouteAttribute) -> (r: RouteFields)
        ensures
            r == apply_route_attr(self, a),
    {
        match a {
            RouteAttribute::Destination(x) => RouteFields { destination: addr_to_ip(x), ..self },
            RouteAttribute::Source(x) => RouteFields { source: addr_to_ip(x), ..self },
            RouteAttribute::PrefSource(x) => RouteFields { source_hint: addr_to_ip(x), ..self },
            RouteAttribute::Gateway(x) => RouteFields { gateway: addr_to_ip(x), ..self },
            RouteAttribute::Oif(i) => RouteFields { ifindex: Some(i), ..self },
            RouteAttribute::Priority(p) => RouteFields { metric: Some(p), ..self },
            RouteAttribute::Table(t) => RouteFields { table: t, ..self },
            RouteAttribute::Other => self,
        }
    }
}

impl RouteMessage {
    /// Reads every attribute of the message, in order.
    pub fn fields(&self) -> (r: RouteFields)
        ensures
            r == message_fields(*self),
    {
        let mut f = RouteFields {
            destination: None,
            source: None,
            source_hint: None,
            gateway: None,
            ifindex: None,
            metric: None,
            table: self.table as u32,
        };
        let mut i: usize = 0;
        while i < self.attributes.len()
            invariant
                i <= self.attributes@.len(),
                f == fields_of(self.attributes@.take(i as int), self.table as u32),
            decreases self.attributes@.len() - i,
        {
            let a = self.attributes[i];
            proof {
                assert(self.attributes@.take(i + 1).drop_last() =~= self.attributes@.take(i as int));
            }
            f = f.apply(a);
            i = i + 1;
        }
        proof {
            assert(self.attributes@.take(i as int) =~= self.attributes@);
        }
        f
    }

    /// Whether the message can be read as a route.
    pub fn is_decodable(&self) -> (r: bool)
        ensures
            r == decodable(*self),
    {
        let f = self.fields();
        f.destination.is_some() || unspecified(self.address_family).is_some()
    }
}

impl Route {
    /// The route that a message describes. A message without a destination
    /// stands for the default route of its family.
    pub fn from_message(msg: &RouteMessage) -> (r: Route)
        requires
            decodable(*msg),
        ensures
            r == route_of(*msg),
    {
        let f = msg.fields();
        let destination = match f.destination {
            Some(d) => d,
            None => unspecified(msg.address_family).unwrap(),
        };
        Route {
            destination,
            prefix: msg.destination_prefix_length,
            source: f.source,
            source_prefix: msg.source_prefix_length,
            source_hint: f.source_hint,
            gateway: f.gateway,
            ifindex: f.ifindex,
            table: f.table,
            metric: f.metric,
        }
    }
}


/// The first version mismatch of a route to add, checked on the gateway,
/// then the preferred source, then the source prefix.
pub open spec fn add_error(r: Route) -> Option<RouteError> {
    if r.gateway is Some && !same_version(r.gateway.unwrap(), r.destination) {
        Some(RouteError::GatewayVersion)
    } else if r.source_hint is Some && !same_version(r.source_hint.unwrap(), r.destination) {
        Some(RouteError::SourceHintVersion)
    } else if r.source is Some && !same_version(r.source.unwrap(), r.destination) {
        Some(RouteError::SourceVersion)
    } else {
        None
    }
}

/// The header's table field for a route's table: the table itself where it
/// fits in 8 bits, else the main table, with the table carried as an attribute.
pub open spec fn header_table(t: u32) -> u8 {
    if t > 255 {
        RT_TABLE_MAIN
    } else {
        t as u8
    }
}

/// The attributes of a request that adds a route, in the order they are
/// written: the table (when it does not fit the header), the destination,
/// the egress interface, the metric, the gateway, the preferred source and
/// the source.
pub open spec fn add_attributes(r: Route) -> Seq<RouteAttribute> {
    let s0 = if r.table > 255 {
        seq![RouteAttribute::Table(r.table)]
    } else {
        Seq::empty()
    };
    let s1 = s0.push(RouteAttribute::Destination(wire_of(r.destination)));
    let s2 = match r.ifindex {
        Some(i) => s1.push(RouteAttribute::Oif(i)),
        None => s1,
    };
    let s3 = match r.metric {
        Some(m) => s2.push(RouteAttribute::Priority(m)),
        None => s2,
    };
    let s4 = match r.gateway {
        Some(g) => s3.push(RouteAttribute::Gateway(wire_of(g))),
        None => s3,
    };
    let s5 = match r.source_hint {
        Some(h) => s4.push(RouteAttribute::PrefSource(wire_of(h))),
        None => s4,
    };
    match r.source {
        Some(x) => s5.push(RouteAttribute::Source(wire_of(x))),
        None => s5,
    }
}

/// The request message that adds a route, of the family of its destination.
pub open spec fn is_add_message(m: RouteMessage, r: Route) -> bool {
    &&& m.address_family == crate::addr::family_of(r.destination)
    &&& m.destination_prefix_length == r.prefix
    &&& m.source_prefix_length == (if r.source is Some { r.source_prefix } else { 0 })
    &&& m.table == header_table(r.table)
    &&& m.attributes@ == add_attributes(r)
}

/// Builds the message that adds `route`. Fails, before anything is sent,
/// when an address of the route is not of its destination's IP version.
pub fn route_to_wire(route: &Route) -> (r: Result<RouteMessage, RouteError>)
    ensures
        match r {
            Ok(m) => add_error(*route) is None && is_add_message(m, *route),
            Err(e) => add_error(*route) == Some(e),
        },
{
    let dst = route.destination;
    if let Some(g) = route.gateway {
        if !g.same_version(&dst) {
            return Err(RouteError::GatewayVersion);
        }
    }
    if let Some(h) = route.source_hint {
        if !h.same_version(&dst) {
            return Err(RouteError::SourceHintVersion);
        }
    }
    if let Some(x) = route.source {
        if !x.same_version(&dst) {
            return Err(RouteError::SourceVersion);
        }
    }
    let mut attributes: Vec<RouteAttribute> = Vec::new();
    let table: u8;
    if route.table > 255 {
        attributes.push(RouteAttribute::Table(route.table));
        table = RT_TABLE_MAIN;
    } else {
        table = route.table as u8;
    }
    attributes.push(RouteAttribute::Destination(dst.to_wire()));
    if let Some(i) = route.ifindex {
        attributes.push(RouteAttribute::Oif(i));
    }
    if let Some(m) = route.metric {
        attributes.push(RouteAttribute::Priority(m));
    }
    if let Some(g) = route.gateway {
        attributes.push(RouteAttribute::Gateway(g.to_wire()));
    }
    if let Some(h) = route.source_hint {
        attributes.push(RouteAttribute::PrefSource(h.to_wire()));
    }
    let mut source_prefix_length: u8 = 0;
    if let Some(x) = route.source {
        attributes.push(RouteAttribute::Source(x.to_wire()));
        source_prefix_length = route.source_prefix;
    }
    let m = RouteMessage {
        address_family: dst.family(),
        destination_prefix_length: route.prefix,
        source_prefix_length,
        table,
        attributes,
    };
    proof {
        assert(m.attributes@ =~= add_attributes(*route));
    }
    Ok(m)
}

proof fn lemma_fields_push(s: Seq<RouteAttribute>, a: RouteAttribute, t: u32)
    ensures
        fields_of(s.push(a), t) == apply_route_attr(fields_of(s, t), a),
{
    assert(s.push(a).drop_last() =~= s);
}

/// Reading back the message that adds a route gives that route, whether its
/// table is carried in the header or as an attribute, wherever every
/// optional field is present and of the destination's IP version.
pub proof fn lemma_add_message_round_trip(r: Route, m: RouteMessage)
    requires
        r.source is Some,
        r.source_hint is Some,
        r.gateway is Some,
        r.ifindex is Some,
        r.metric is Some,
        add_error(r) is None,
        is_add_message(m, r),
    ensures
        decodable(m),
        route_of(m) == r,
{
    let t = m.table as u32;
    let s0 = if r.table > 255 {
        seq![RouteAttribute::Table(r.table)]
    } else {
        Seq::<RouteAttribute>::empty()
    };
    if r.table > 255 {
        lemma_fields_push(Seq::empty(), RouteAttribute::Table(r.table), t);
        assert(seq![RouteAttribute::Table(r.table)] =~= Seq::<RouteAttribute>::empty().push(
            RouteAttribute::Table(r.table),
        ));
    }
    assert(fields_of(s0, t).table == r.table);
    let s1 = s0.push(RouteAttribute::Destination(wire_of(r.destination)));
    lemma_fields_push(s0, RouteAttribute::Destination(wire_of(r.destination)), t);
    let s2 = s1.push(RouteAttribute::Oif(r.ifindex.unwrap()));
    lemma_fields_push(s1, RouteAttribute::Oif(r.ifindex.unwrap()), t);
    let s3 = s2.push(RouteAttribute::Priority(r.metric.unwrap()));
    lemma_fields_push(s2, RouteAttribute::Priority(r.metric.unwrap()), t);
    let s4 = s3.push(RouteAttribute::Gateway(wire_of(r.gateway.unwrap())));
    lemma_fields_push(s3, RouteAttribute::Gateway(wire_of(r.gateway.unwrap())), t);
    let s5 = s4.push(RouteAttribute::PrefSource(wire_of(r.source_hint.unwrap())));
    lemma_fields_push(s4, RouteAttribute::PrefSource(wire_of(r.source_hint.unwrap())), t);
    let s6 = s5.push(RouteAttribute::Source(wire_of(r.source.unwrap())));
    lemma_fields_push(s5, RouteAttribute::Source(wire_of(r.source.unwrap())), t);
    assert(m.attributes@ == s6);
    assert(route_of(m) =~= r);
}


/// Attribute `i` names the destination with an IP address.
pub open spec fn is_dest_at(attrs: Seq<RouteAttribute>, i: int) -> bool {
    0 <= i < attrs.len() && attrs[i] is Destination && ip_of(attrs[i]->Destination_0) is Some
}

/// The message names its destination with an IP address.
pub open spec fn has_destination(m: RouteMessage) -> bool {
    exists|i: int| is_dest_at(m.attributes@, i)
}

impl RouteMessage {
    /// The destination network of the message, from its first Destination
    /// attribute that holds an IP address, with the header's prefix length;
    /// none for a default route.
    pub fn destination_prefix(&self) -> (r: Option<(IpAddress, u8)>)
        ensures
            r is None <==> !has_destination(*self),
            r matches Some(p) ==> exists|i: int|
                #![trigger self.attributes@[i]]
                is_dest_at(self.attributes@, i)
                    && ip_of(self.attributes@[i]->Destination_0) == Some(p.0)
                    && p.1 == self.destination_prefix_length
                    && forall|j: int| 0 <= j < i ==> !is_dest_at(self.attributes@, j),
    {
        let mut i: usize = 0;
        while i < self.attributes.len()
            invariant
                i <= self.attributes@.len(),
                forall|j: int| 0 <= j < i ==> !is_dest_at(self.attributes@, j),
            decreases self.attributes@.len() - i,
        {
            if let RouteAttribute::Destination(a) = self.attributes[i] {
                if let Some(ip) = addr_to_ip(a) {
                    assert(is_dest_at(self.attributes@, i as int));
                    return Some((ip, self.destination_prefix_length));
                }
            }
            i = i + 1;
        }
        None
    }
}

/// Message `i` is the first of the listing that names no destination.
pub open spec fn first_without_destination(messages: Seq<RouteMessage>, i: int) -> bool {
    &&& 0 <= i < messages.len()
    &&& !has_destination(messages[i])
    &&& forall|j: int| 0 <= j < i ==> has_destination(#[trigger] messages[j])
}

/// The first message of a listing that names no destination, read as a
/// route: the default route, if the listing holds one. A route is a default
/// route by the absence of the attribute, not by its address.
pub fn default_route(messages: &Vec<RouteMessage>) -> (r: Option<Route>)
    requires
        forall|i: int| 0 <= i < messages@.len() ==> decodable(#[trigger] messages@[i]),
    ensures
        r is None <==> forall|i: int|
            0 <= i < messages@.len() ==> has_destination(#[trigger] messages@[i]),
        r matches Some(d) ==> exists|i: int|
            #[trigger] first_without_destination(messages@, i) && d == route_of(messages@[i]),
{
    let mut i: usize = 0;
    while i < messages.len()
        invariant
            i <= messages@.len(),
            forall|j: int| 0 <= j < messages@.len() ==> decodable(#[trigger] messages@[j]),
            forall|j: int| 0 <= j < i ==> has_destination(#[trigger] messages@[j]),
        decreases messages@.len() - i,
    {
        if messages[i].destination_prefix().is_none() {
            assert(decodable(messages@[i as int]));
            assert(first_without_destination(messages@, i as int));
            return Some(Route::from_message(&messages[i]));
        }
        i = i + 1;
    }
    None
}

/// Two routes are the same for deletion when destination, prefix and metric
/// agree; gateway, table and sources are not compared, so routes that differ
/// only there cannot be told apart.
pub open spec fn same_key(a: Route, b: Route) -> bool {
    a.destination == b.destination && a.prefix == b.prefix && a.metric == b.metric
}

/// Picks the listed kernel route that a deletion of `route` removes: the
/// first whose destination, prefix and metric equal the route's. The
/// listing is that of the route's family; the chosen message is sent back
/// whole as the delete request.
pub fn route_to_delete(route: &Route, listed: &Vec<RouteMessage>) -> (r: Result<usize, RouteError>)
    requires
        forall|i: int| 0 <= i < listed@.len() ==> decodable(#[trigger] listed@[i]),
    ensures
        match r {
            Ok(i) => i < listed@.len() && same_key(route_of(listed@[i as int]), *route) && forall|
                j: int,
            |
                0 <= j < i ==> !same_key(#[trigger] route_of(listed@[j]), *route),
            Err(e) => e == RouteError::NotFound && forall|j: int|
                0 <= j < listed@.len() ==> !same_key(#[trigger] route_of(listed@[j]), *route),
        },
{
    let mut i: usize = 0;
    while i < listed.len()
        invariant
            i <= listed@.len(),
            forall|j: int| 0 <= j < listed@.len() ==> decodable(#[trigger] listed@[j]),
            forall|j: int| 0 <= j < i ==> !same_key(#[trigger] route_of(listed@[j]), *route),
        decreases listed@.len() - i,
    {
        assert(decodable(listed@[i as int]));
        let other = Route::from_message(&listed[i]);
        if other.destination == route.destination && other.prefix == route.prefix
            && other.metric == route.metric {
            return Ok(i);
        }
        i = i + 1;
    }
    Err(RouteError::NotFound)
}

/// A message without a Destination attribute reads as the unspecified
/// address of its family, and in a listing whose other entries all name
/// their destination it is the entry that `default_route` returns.
pub proof fn lemma_default_route_detection(messages: Seq<RouteMessage>, k: int)
    requires
        0 <= k < messages.len(),
        forall|i: int| 0 <= i < messages.len() ==> decodable(#[trigger] messages[i]),
        forall|j: int|
            0 <= j < messages[k].attributes@.len() ==> !(messages[k].attributes@[j] is Destination),
        forall|i: int| 0 <= i < messages.len() && i != k ==> has_destination(#[trigger] messages[i]),
    ensures
        route_of(messages[k]).destination == unspecified_of(messages[k].address_family).unwrap(),
        !has_destination(messages[k]),
        forall|i: int| #[trigger] first_without_destination(messages, i) <==> i == k,
{
    lemma_no_destination(messages[k].attributes@, messages[k].table as u32);
}

proof fn lemma_no_destination(s: Seq<RouteAttribute>, t: u32)
    requires
        forall|j: int| 0 <= j < s.len() ==> !(s[j] is Destination),
    ensures
        fields_of(s, t).destination is None,
    decreases s.len(),
{
    if s.len() > 0 {
        lemma_no_destination(s.drop_last(), t);
    }
}


/// How many listed messages describe a route with the key of `r`.
pub open spec fn count_same_key(listed: Seq<RouteMessage>, r: Route) -> nat
    decreases listed.len(),
{
    if listed.len() == 0 {
        0
    } else {
        count_same_key(listed.drop_last(), r) + if same_key(route_of(listed.last()), r) {
            1nat
        } else {
            0nat
        }
    }
}

/// Deleting the entry that `route_to_delete` picks removes exactly one of
/// the listed routes that share the key, however many there are.
pub proof fn lemma_delete_removes_exactly_one(listed: Seq<RouteMessage>, r: Route, i: int)
    requires
        0 <= i < listed.len(),
        same_key(route_of(listed[i]), r),
    ensures
        count_same_key(listed.remove(i), r) + 1 == count_same_key(listed, r),
    decreases listed.len(),
{
    if i == listed.len() - 1 {
        assert(listed.remove(i) =~= listed.drop_last());
    } else {
        let rest = listed.drop_last();
        lemma_delete_removes_exactly_one(rest, r, i);
        assert(listed.remove(i).drop_last() =~= rest.remove(i));
        assert(listed.remove(i).last() == listed.last());
    }
}

} // verus!
