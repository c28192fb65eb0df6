//! Policy-routing rules: the model, its attribute-message form, and the
//! requests that add and delete a rule.
use vstd::prelude::*;
use crate::addr::{family_of, Family, IpAddress};
use crate::route::RT_TABLE_MAIN;

verus! {

/// The rule action that sends a lookup to the rule's table.
pub const FR_ACT_TO_TBL: u8 = 1;

/// The table of a rule message that sets none of its own.
pub const RT_TABLE_UNSPEC: u8 = 0;

/// One typed attribute of a rule message.
#[derive(Debug, PartialEq, Eq)]
pub enum RuleAttribute {
    Destination(IpAddress),
    Source(IpAddress),
    Iifname(String),
    Oifname(String),
    Priority(u32),
    FwMark(u32),
    FwMask(u32),
    SuppressPrefixLen(u32),
    Table(u32),
    /// An IP protocol number.
    IpProtocol(u8),
    /// An attribute that rules do not read.
    Other,
}

/// A rule message: its fixed header and its ordered attributes.
#[derive(Debug)]
pub struct RuleMessage {
    pub family: Family,
    pub dst_len: u8,
    pub src_len: u8,
    pub table: u8,
    pub action: u8,
    pub attributes: Vec<RuleAttribute>,
}

/// A policy-routing rule: what a lookup must match, and the table it then
/// goes to.
#[derive(Debug)]
pub struct Rule {
    pub src: Option<(IpAddress, u8)>,
    pub dst: Option<(IpAddress, u8)>,
    pub input_interface: Option<String>,
    pub output_interface: Option<String>,
    pub table_id: Option<u32>,
    /// Rules of lower priority are evaluated first.
    pub priority: Option<u32>,
    pub fw_mark_mask: Option<(u32, u32)>,
    pub suppress_prefixlength: Option<u32>,
    /// An IP protocol number to match.
    pub protocol: Option<u8>,
    /// The address family of the rule: IPv6 when set.
    pub v6: bool,
    /// The attributes of the kernel message the rule was read from.
    pub attributes: Vec<RuleAttribute>,
}

impl Default for Rule {
    /// A rule that matches everything, for IPv4, with no table.
    fn default() -> (r: Rule)
        ensures
            r.src is None && r.dst is None,
            r.input_interface is None && r.output_interface is None,
            r.table_id is None && r.priority is None,
            r.fw_mark_mask is None && r.suppress_prefixlength is None,
            r.protocol is None && !r.v6,
            r.attributes@.len() == 0,
    {
        Rule {
            src: None,
            dst: None,
            input_interface: None,
            output_interface: None,
            table_id: None,
            priority: None,
            fw_mark_mask: None,
            suppress_prefixlength: None,
            protocol: None,
            v6: false,
            attributes: Vec::new(),
        }
    }
}

pub open spec fn rule_family(r: Rule) -> Family {
    if r.v6 {
        Family::Inet6
    } else {
        Family::Inet
    }
}

pub open spec fn opt_push<T>(s: Seq<RuleAttribute>, o: Option<T>, f: spec_fn(T) -> RuleAttribute) -> Seq<
    RuleAttribute,
> {
    match o {
        Some(x) => s.push(f(x)),
        None => s,
    }
}

/// A match prefix that is of the rule's family; one of the other family is
/// left out of an add request.
pub open spec fn in_family(r: Rule, p: Option<(IpAddress, u8)>) -> Option<(IpAddress, u8)> {
    match p {
        Some(x) => if family_of(x.0) == rule_family(r) {
            Some(x)
        } else {
            None
        },
        None => None,
    }
}

/// The firewall mark and its mask, in that order.
pub open spec fn fw_attributes(s: Seq<RuleAttribute>, r: Rule) -> Seq<RuleAttribute> {
    match r.fw_mark_mask {
        Some(p) => s.push(RuleAttribute::FwMark(p.0)).push(RuleAttribute::FwMask(p.1)),
        None => s,
    }
}

/// The attributes of a request that adds (or replaces) a rule: interface
/// names, the table where it does not fit the header, the priority, the
/// firewall mark and mask, the suppression threshold, the protocol, then
/// the source and destination prefixes of the rule's family.
pub open spec fn add_rule_attributes(r: Rule) -> Seq<RuleAttribute> {
    let s1 = opt_push(Seq::empty(), r.input_interface, |n| RuleAttribute::Iifname(n));
    let s2 = opt_push(s1, r.output_interface, |n| RuleAttribute::Oifname(n));
    let s3 = match r.table_id {
        Some(t) => if t > 255 {
            s2.push(RuleAttribute::Table(t))
        } else {
            s2
        },
        None => s2,
    };
    let s4 = opt_push(s3, r.priority, |p| RuleAttribute::Priority(p));
    let s5 = fw_attributes(s4, r);
    let s6 = opt_push(s5, r.suppress_prefixlength, |p| RuleAttribute::SuppressPrefixLen(p));
    let s7 = opt_push(s6, r.protocol, |p| RuleAttribute::IpProtocol(p));
    let s8 = opt_push(s7, in_family(r, r.src), |p: (IpAddress, u8)| RuleAttribute::Source(p.0));
    opt_push(s8, in_family(r, r.dst), |p: (IpAddress, u8)| RuleAttribute::Destination(p.0))
}

pub open spec fn prefix_len(p: Option<(IpAddress, u8)>) -> u8 {
    match p {
        Some(x) => x.1,
        None => 0,
    }
}

/// The message that adds a rule, directing lookups to its table.
pub open spec fn is_add_rule_message(m: RuleMessage, r: Rule) -> bool {
    &&& m.family == rule_family(r)
    &&& m.action == FR_ACT_TO_TBL
    &&& m.table == match r.table_id {
        Some(t) => if t > 255 {
            RT_TABLE_MAIN
        } else {
            t as u8
        },
        None => RT_TABLE_MAIN,
    }
    &&& m.src_len == prefix_len(in_family(r, r.src))
    &&& m.dst_len == prefix_len(in_family(r, r.dst))
    &&& m.attributes@ == add_rule_attributes(r)
}

/// The attributes of a request that deletes a rule: both prefixes, the
/// interface names, the table, the priority, the firewall mark and mask and
/// the suppression threshold. The protocol is not matched on deletion.
pub open spec fn delete_rule_attributes(r: Rule) -> Seq<RuleAttribute> {
    let s1 = opt_push(Seq::empty(), r.src, |p: (IpAddress, u8)| RuleAttribute::Source(p.0));
    let s2 = opt_push(s1, r.dst, |p: (IpAddress, u8)| RuleAttribute::Destination(p.0));
    let s3 = opt_push(s2, r.input_interface, |n| RuleAttribute::Iifname(n));
    let s4 = opt_push(s3, r.output_interface, |n| RuleAttribute::Oifname(n));
    let s5 = opt_push(s4, r.table_id, |t| RuleAttribute::Table(t));
    let s6 = opt_push(s5, r.priority, |p| RuleAttribute::Priority(p));
    let s7 = fw_attributes(s6, r);
    opt_push(s7, r.suppress_prefixlength, |p| RuleAttribute::SuppressPrefixLen(p))
}

/// The message that deletes a rule.
pub open spec fn is_delete_rule_message(m: RuleMessage, r: Rule) -> bool {
    &&& m.family == rule_family(r)
    &&& m.action == FR_ACT_TO_TBL
    &&& m.table == RT_TABLE_UNSPEC
    &&& m.src_len == prefix_len(r.src)
    &&& m.dst_len == prefix_len(r.dst)
    &&& m.attributes@ == delete_rule_attributes(r)
}

fn family_for(v6: bool) -> (f: Family)
    ensures
        f == (if v6 {
            Family::Inet6
        } else {
            Family::Inet
        }),
{
    if v6 {
        Family::Inet6
    } else {
        Family::Inet
    }
}

/// A copy of an optional interface name.
fn copy_name(n: &Option<String>) -> (r: Option<String>)
    ensures
        r == *n,
{
    match n {
        Some(s) => Some(s.clone()),
        None => None,
    }
}

/// Builds the request that adds `rule`, replacing an identical one.
pub fn add_rule_message(rule: &Rule) -> (m: RuleMessage)
    ensures
        is_add_rule_message(m, *rule),
{
    let ghost r = *rule;
    let family = family_for(rule.v6);
    let mut attributes: Vec<RuleAttribute> = Vec::new();
    let mut table: u8 = RT_TABLE_MAIN;
    if let Some(n) = copy_name(&rule.input_interface) {
        attributes.push(RuleAttribute::Iifname(n));
    }
    if let Some(n) = copy_name(&rule.output_interface) {
        attributes.push(RuleAttribute::Oifname(n));
    }
    if let Some(t) = rule.table_id {
        if t > 255 {
            attributes.push(RuleAttribute::Table(t));
        } else {
            table = t as u8;
        }
    }
    if let Some(p) = rule.priority {
        attributes.push(RuleAttribute::Priority(p));
    }
    if let Some((mark, mask)) = rule.fw_mark_mask {
        attributes.push(RuleAttribute::FwMark(mark));
        attributes.push(RuleAttribute::FwMask(mask));
    }
    if let Some(p) = rule.suppress_prefixlength {
        attributes.push(RuleAttribute::SuppressPrefixLen(p));
    }
    if let Some(p) = rule.protocol {
        attributes.push(RuleAttribute::IpProtocol(p));
    }
    let mut src_len: u8 = 0;
    if let Some((a, len)) = rule.src {
        if a.family() == family {
            attributes.push(RuleAttribute::Source(a));
            src_len = len;
        }
    }
    let mut dst_len: u8 = 0;
    if let Some((a, len)) = rule.dst {
        if a.family() == family {
            attributes.push(RuleAttribute::Destination(a));
            dst_len = len;
        }
    }
    let m = RuleMessage { family, dst_len, src_len, table, action: FR_ACT_TO_TBL, attributes };
    proof {
        assert(m.attributes@ =~= add_rule_attributes(r));
    }
    m
}

/// Builds the request that deletes `rule`.
pub fn delete_rule_message(rule: &Rule) -> (m: RuleMessage)
    ensures
        is_delete_rule_message(m, *rule),
{
    let ghost r = *rule;
    let mut attributes: Vec<RuleAttribute> = Vec::new();
    let mut src_len: u8 = 0;
    if let Some((a, len)) = rule.src {
        attributes.push(RuleAttribute::Source(a));
        src_len = len;
    }
    let mut dst_len: u8 = 0;
    if let Some((a, len)) = rule.dst {
        attributes.push(RuleAttribute::Destination(a));
        dst_len = len;
    }
    if let Some(n) = copy_name(&rule.input_interface) {
        attributes.push(RuleAttribute::Iifname(n));
    }
    if let Some(n) = copy_name(&rule.output_interface) {
        attributes.push(RuleAttribute::Oifname(n));
    }
    if let Some(t) = rule.table_id {
        attributes.push(RuleAttribute::Table(t));
    }
    if let Some(p) = rule.priority {
        attributes.push(RuleAttribute::Priority(p));
    }
    if let Some((mark, mask)) = rule.fw_mark_mask {
        attributes.push(RuleAttribute::FwMark(mark));
        attributes.push(RuleAttribute::FwMask(mask));
    }
    if let Some(p) = rule.suppress_prefixlength {
        attributes.push(RuleAttribute::SuppressPrefixLen(p));
    }
    let m = RuleMessage {
        family: family_for(rule.v6),
        dst_len,
        src_len,
        table: RT_TABLE_UNSPEC,
        action: FR_ACT_TO_TBL,
        attributes,
    };
    proof {
        assert(m.attributes@ =~= delete_rule_attributes(r));
    }
    m
}


/// What the attributes of a rule message say, field by field.
pub struct RuleFields {
    pub src: Option<IpAddress>,
    pub dst: Option<IpAddress>,
    pub input_interface: Option<String>,
    pub output_interface: Option<String>,
    pub table: Option<u32>,
    pub priority: Option<u32>,
    pub fw_mark: Option<u32>,
    pub fw_mask: Option<u32>,
    pub suppress_prefixlength: Option<u32>,
    pub protocol: Option<u8>,
}

/// One attribute read over the fields read so far: a later attribute of a
/// kind replaces an earlier one.
pub open spec fn apply_rule_attr(f: RuleFields, a: RuleAttribute) -> RuleFields {
    match a {
        RuleAttribute::Destination(x) => RuleFields { dst: Some(x), ..f },
        RuleAttribute::Source(x) => RuleFields { src: Some(x), ..f },
        RuleAttribute::Iifname(n) => RuleFields { input_interface: Some(n), ..f },
        RuleAttribute::Oifname(n) => RuleFields { output_interface: Some(n), ..f },
        RuleAttribute::Priority(p) => RuleFields { priority: Some(p), ..f },
        RuleAttribute::FwMark(x) => RuleFields { fw_mark: Some(x), ..f },
        RuleAttribute::FwMask(x) => RuleFields { fw_mask: Some(x), ..f },
        RuleAttribute::SuppressPrefixLen(x) => RuleFields { suppress_prefixlength: Some(x), ..f },
        RuleAttribute::Table(t) => RuleFields { table: Some(t), ..f },
        RuleAttribute::IpProtocol(p) => RuleFields { protocol: Some(p), ..f },
        RuleAttribute::Other => f,
    }
}

pub open spec fn empty_rule_fields() -> RuleFields {
    RuleFields {
        src: None,
        dst: None,
        input_interface: None,
        output_interface: None,
        table: None,
        priority: None,
        fw_mark: None,
        fw_mask: None,
        suppress_prefixlength: None,
        protocol: None,
    }
}

/// The fields that a list of attributes gives.
pub open spec fn rule_fields_of(attrs: Seq<RuleAttribute>) -> RuleFields
    decreases attrs.len(),
{
    if attrs.len() == 0 {
        empty_rule_fields()
    } else {
        apply_rule_attr(rule_fields_of(attrs.drop_last()), attrs.last())
    }
}

/// The mask that goes with a firewall mark given without one: every bit.
pub const FULL_MASK: u32 = 0xffff_ffff;

/// The rule that a listed message describes. The table comes from a Table
/// attribute, else from the header unless the header leaves it unset; a
/// mark without a mask matches on every bit.
pub open spec fn rule_matches_message(r: Rule, m: RuleMessage) -> bool {
    let f = rule_fields_of(m.attributes@);
    &&& r.src == match f.src {
        Some(a) => Some((a, m.src_len)),
        None => None,
    }
    &&& r.dst == match f.dst {
        Some(a) => Some((a, m.dst_len)),
        None => None,
    }
    &&& r.input_interface == f.input_interface
    &&& r.output_interface == f.output_interface
    &&& r.table_id == match f.table {
        Some(t) => Some(t),
        None => if m.table == RT_TABLE_UNSPEC {
            None
        } else {
            Some(m.table as u32)
        },
    }
    &&& r.priority == f.priority
    &&& r.fw_mark_mask == match f.fw_mark {
        Some(mark) => Some(
            (
                mark,
                match f.fw_mask {
                    Some(mask) => mask,
                    None => FULL_MASK,
                },
            ),
        ),
        None => None,
    }
    &&& r.suppress_prefixlength == f.suppress_prefixlength
    &&& r.protocol == f.protocol
    &&& r.v6 == (m.family == Family::Inet6)
    &&& r.attributes@ == m.attributes@
}

fn apply_rule_attribute(f: RuleFields, a: &RuleAttribute) -> (r: RuleFields)
    ensures
        r == apply_rule_attr(f, *a),
{
    match a {
        RuleAttribute::Destination(x) => RuleFields { dst: Some(*x), ..f },
        RuleAttribute::Source(x) => RuleFields { src: Some(*x), ..f },
        RuleAttribute::Iifname(n) => RuleFields { input_interface: Some(n.clone()), ..f },
        RuleAttribute::Oifname(n) => RuleFields { output_interface: Some(n.clone()), ..f },
        RuleAttribute::Priority(p) => RuleFields { priority: Some(*p), ..f },
        RuleAttribute::FwMark(x) => RuleFields { fw_mark: Some(*x), ..f },
        RuleAttribute::FwMask(x) => RuleFields { fw_mask: Some(*x), ..f },
        RuleAttribute::SuppressPrefixLen(x) => RuleFields { suppress_prefixlength: Some(*x), ..f },
        RuleAttribute::Table(t) => RuleFields { table: Some(*t), ..f },
        RuleAttribute::IpProtocol(p) => RuleFields { protocol: Some(*p), ..f },
        RuleAttribute::Other => f,
    }
}

impl Rule {
    /// The rule that a listed message describes; the message's attributes
    /// are kept whole in the rule.
    pub fn from_message(m: RuleMessage) -> (r: Rule)
        ensures
            rule_matches_message(r, m),
    {
        let mut f = RuleFields {
            src: None,
            dst: None,
            input_interface: None,
            output_interface: None,
            table: None,
            priority: None,
            fw_mark: None,
            fw_mask: None,
            suppress_prefixlength: None,
            protocol: None,
        };
        let mut i: usize = 0;
        while i < m.attributes.len()
            invariant
                i <= m.attributes@.len(),
                f == rule_fields_of(m.attributes@.take(i as int)),
            decreases m.attributes@.len() - i,
        {
            proof {
                assert(m.attributes@.take(i + 1).drop_last() =~= m.attributes@.take(i as int));
            }
            f = apply_rule_attribute(f, &m.attributes[i]);
            i = i + 1;
        }
        proof {
            assert(m.attributes@.take(i as int) =~= m.attributes@);
        }
        let src = match f.src {
            Some(a) => Some((a, m.src_len)),
            None => None,
        };
        let dst = match f.dst {
            Some(a) => Some((a, m.dst_len)),
            None => None,
        };
        let table_id = match f.table {
            Some(t) => Some(t),
            None => if m.table == RT_TABLE_UNSPEC {
                None
            } else {
                Some(m.table as u32)
            },
        };
        let fw_mark_mask = match f.fw_mark {
            Some(mark) => Some(
                (
                    mark,
                    match f.fw_mask {
                        Some(mask) => mask,
                        None => FULL_MASK,
                    },
                ),
            ),
            None => None,
        };
        let v6 = match m.family {
            Family::Inet6 => true,
            _ => false,
        };
        Rule {
            src,
            dst,
            input_interface: f.input_interface,
            output_interface: f.output_interface,
            table_id,
            priority: f.priority,
            fw_mark_mask,
            suppress_prefixlength: f.suppress_prefixlength,
            protocol: f.protocol,
            v6,
            attributes: m.attributes,
        }
    }
}

} // verus!
