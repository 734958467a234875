//! NVMe-over-fabrics subsystem state: the parsed form of what the kernel
//! exposes for each attached subsystem, and the selection logic over it.
//! Reading the kernel's files is the caller's business; everything here
//! works on the values read.

use vstd::prelude::*;
use vstd::string::{StrSliceExecFns, StringExecFns};
use vstd::string::StringSliceAdditionalSpecFns;
use vstd::utf8::encode_utf8;
use crate::strutil::{find_from, str_eq, str_find_from, string_from_ascii_bytes};

verus! {

/// Where the kernel exposes fabrics controllers.
pub fn sysfs_ctrl_prefix() -> (r: &'static str)
    ensures
        r@ == "/sys/devices/virtual/nvme-fabrics/ctl/"@,
{
    "/sys/devices/virtual/nvme-fabrics/ctl/"
}

/// Errors from subsystem inspection.
#[derive(Debug)]
pub enum NvmeError {
    /// The path does not name a fabrics controller.
    InvalidPath {
        /// The offending path.
        path: String,
    },
    /// A discovery controller rather than a subsystem.
    CtlNotFound {
        /// What was looked for.
        text: String,
    },
    /// No subsystem matches the qualified name and address.
    SubsystemNotFound {
        /// The qualified name looked for.
        nqn: String,
        /// The host address looked for.
        host: String,
        /// The port looked for.
        port: u16,
    },
    /// No subsystem is registered for the qualified name.
    NqnNotFound {
        /// The qualified name looked for.
        nqn: String,
    },
}

/// The `key=value` pairs of a comma-separated token list, taken from `pos`
/// on: each comma-delimited segment containing a `=` contributes the part
/// before its first `=` and the part after, in order.
pub open spec fn spec_addr_pairs(s: Seq<char>, pos: int) -> Seq<(Seq<char>, Seq<char>)>
    decreases s.len() - pos,
    via spec_addr_pairs_decreases
{
    if !(0 <= pos <= s.len()) {
        Seq::empty()
    } else {
        let k = find_from(s, pos, ',');
        let e = find_from(s, pos, '=');
        let pair = if e < k {
            seq![(s.subrange(pos, e), s.subrange(e + 1, k))]
        } else {
            Seq::empty()
        };
        if k >= s.len() {
            pair
        } else {
            pair + spec_addr_pairs(s, k + 1)
        }
    }
}

#[via_fn]
proof fn spec_addr_pairs_decreases(s: Seq<char>, pos: int) {
    if 0 <= pos <= s.len() {
        crate::strutil::lemma_find_from_bounds(s, pos, ',');
    }
}

/// The value of the last pair carrying `key`, if any.
pub open spec fn last_key_value(pairs: Seq<(Seq<char>, Seq<char>)>, key: Seq<char>) -> Option<
    Seq<char>,
>
    decreases pairs.len(),
{
    if pairs.len() == 0 {
        None
    } else if pairs.last().0 == key {
        Some(pairs.last().1)
    } else {
        last_key_value(pairs.drop_last(), key)
    }
}

/// A key claimed by one of the named address tokens.
pub open spec fn is_known_addr_key(key: Seq<char>) -> bool {
    key == "traddr"@ || key == "trsvcid"@ || key == "src_addr"@
}

/// The pairs no named token claims, in order.
pub open spec fn unknown_addr_pairs(pairs: Seq<(Seq<char>, Seq<char>)>) -> Seq<
    (Seq<char>, Seq<char>),
>
    decreases pairs.len(),
{
    if pairs.len() == 0 {
        Seq::empty()
    } else if is_known_addr_key(pairs.last().0) {
        unknown_addr_pairs(pairs.drop_last())
    } else {
        unknown_addr_pairs(pairs.drop_last()) + seq![pairs.last()]
    }
}

/// The content of a sequence of owned string pairs.
pub open spec fn pairs_view(pairs: Seq<(String, String)>) -> Seq<(Seq<char>, Seq<char>)> {
    pairs.map_values(|p: (String, String)| (p.0@, p.1@))
}

/// Splits a comma-separated token list into its `key=value` pairs.
fn parse_addr_pairs(s: &str) -> (r: Vec<(String, String)>)
    ensures
        pairs_view(r@) == spec_addr_pairs(s@, 0),
{
    let n = s.unicode_len();
    let mut r: Vec<(String, String)> = Vec::new();
    let mut pos: usize = 0;
    loop
        invariant
            n == s@.len(),
            0 <= pos <= n,
            spec_addr_pairs(s@, 0) == pairs_view(r@) + spec_addr_pairs(s@, pos as int),
        decreases n - pos,
    {
        let ghost pairs_before = r@;
        let k = str_find_from(s, pos, ',');
        let e = str_find_from(s, pos, '=');
        if e < k {
            let key = s.substring_char(pos, e).to_owned();
            let value = s.substring_char(e + 1, k).to_owned();
            r.push((key, value));
            proof {
                assert(pairs_view(r@) =~= pairs_view(pairs_before) + seq![
                    (s@.subrange(pos as int, e as int), s@.subrange(e + 1, k as int)),
                ]);
            }
        }
        if k >= n {
            proof {
                assert(spec_addr_pairs(s@, 0) =~= pairs_view(r@));
            }
            return r;
        }
        proof {
            assert(pairs_view(r@) + spec_addr_pairs(s@, k + 1) =~= pairs_view(pairs_before)
                + spec_addr_pairs(s@, pos as int));
        }
        pos = k + 1;
    }
}

/// A slightly parsed version of `SubsystemAddr` containing the address
/// tokens as variables, making it easier to retrieve them.
#[derive(Debug)]
pub struct SubsystemAddrExt {
    /// The transport address, when a `traddr` token is present.
    pub tr_addr: Option<String>,
    /// The transport service id (port), when a `trsvcid` token is present.
    pub tr_svc_id: Option<String>,
    /// The source address, when a `src_addr` token is present.
    pub src_addr: Option<String>,
    /// Tokens no named field claims.
    pub unknowns: Vec<(String, String)>,
}

/// The content of an optional owned string.
pub open spec fn opt_view(o: Option<String>) -> Option<Seq<char>> {
    match o {
        Some(s) => Some(s@),
        None => None,
    }
}

impl SubsystemAddrExt {
    /// Parses a raw address string: each named token takes the value of its
    /// last occurrence, everything else is kept aside in order.
    pub fn parse(value: &str) -> (r: Self)
        ensures
            opt_view(r.tr_addr) == last_key_value(spec_addr_pairs(value@, 0), "traddr"@),
            opt_view(r.tr_svc_id) == last_key_value(spec_addr_pairs(value@, 0), "trsvcid"@),
            opt_view(r.src_addr) == last_key_value(spec_addr_pairs(value@, 0), "src_addr"@),
            pairs_view(r.unknowns@) == unknown_addr_pairs(spec_addr_pairs(value@, 0)),
    {
        proof {
            reveal_strlit("traddr");
            reveal_strlit("trsvcid");
            reveal_strlit("src_addr");
        }
        let pairs = parse_addr_pairs(value);
        let ghost all = pairs_view(pairs@);
        let mut r = SubsystemAddrExt {
            tr_addr: None,
            tr_svc_id: None,
            src_addr: None,
            unknowns: Vec::new(),
        };
        let mut i: usize = 0;
        while i < pairs.len()
            invariant
                all == pairs_view(pairs@),
                i <= pairs@.len(),
                opt_view(r.tr_addr) == last_key_value(all.take(i as int), "traddr"@),
                opt_view(r.tr_svc_id) == last_key_value(all.take(i as int), "trsvcid"@),
                opt_view(r.src_addr) == last_key_value(all.take(i as int), "src_addr"@),
                pairs_view(r.unknowns@) == unknown_addr_pairs(all.take(i as int)),
            decreases pairs@.len() - i,
        {
            proof {
                reveal_strlit("traddr");
                reveal_strlit("trsvcid");
                reveal_strlit("src_addr");
                assert("traddr"@.len() == 6 && "trsvcid"@.len() == 7 && "src_addr"@.len() == 8);
                assert("traddr"@ != "trsvcid"@ && "traddr"@ != "src_addr"@ && "trsvcid"@
                    != "src_addr"@);
                assert(all.take(i + 1).drop_last() =~= all.take(i as int));
                assert(all.take(i + 1).last() == all[i as int]);
            }
            let ghost unknowns_before = r.unknowns@;
            let pair = &pairs[i];
            if str_eq(pair.0.as_str(), "traddr") {
                r.tr_addr = Some(pair.1.clone());
            } else if str_eq(pair.0.as_str(), "trsvcid") {
                r.tr_svc_id = Some(pair.1.clone());
            } else if str_eq(pair.0.as_str(), "src_addr") {
                r.src_addr = Some(pair.1.clone());
            } else {
                r.unknowns.push((pair.0.clone(), pair.1.clone()));
                proof {
                    assert(pairs_view(r.unknowns@) =~= pairs_view(unknowns_before) + seq![
                        all[i as int],
                    ]);
                }
            }
            i += 1;
        }
        proof {
            assert(all.take(all.len() as int) =~= all);
        }
        r
    }

    /// Check if the subsystem address contains the target host and port.
    pub fn match_host_port(&self, host: &str, port: &str) -> (r: bool)
        ensures
            r == (opt_view(self.tr_addr) == Some(host@) && opt_view(self.tr_svc_id) == Some(
                port@,
            )),
    {
        let addr_matches = match &self.tr_addr {
            Some(addr) => str_eq(addr.as_str(), host),
            None => false,
        };
        let port_matches = match &self.tr_svc_id {
            Some(svc) => str_eq(svc.as_str(), port),
            None => false,
        };
        addr_matches && port_matches
    }
}

/// Wrapper over a raw subsystem address string. The address contains a
/// comma-separated list of tokens, for example `traddr=10.1.0.2,trsvcid=8420`.
#[derive(Clone, Debug)]
pub struct SubsystemAddr(String);

impl View for SubsystemAddr {
    type V = Seq<char>;

    closed spec fn view(&self) -> Seq<char> {
        self.0@
    }
}

impl SubsystemAddr {
    /// Wraps a raw address string.
    pub fn new(raw: String) -> (r: Self)
        ensures
            r@ == raw@,
    {
        SubsystemAddr(raw)
    }

    /// Check if the subsystem address contains the target host and port.
    pub fn match_host_port(&self, host: &str, port: &str) -> (r: bool)
        ensures
            r == (last_key_value(spec_addr_pairs(self@, 0), "traddr"@) == Some(host@)
                && last_key_value(spec_addr_pairs(self@, 0), "trsvcid"@) == Some(port@)),
    {
        SubsystemAddrExt::parse(self.0.as_str()).match_host_port(host, port)
    }

    /// Collect all address tokens into key-value pairs, in order.
    pub fn collect(&self) -> (r: Vec<(String, String)>)
        ensures
            pairs_view(r@) == spec_addr_pairs(self@, 0),
    {
        parse_addr_pairs(self.0.as_str())
    }

    /// SubsystemAddr content as a slice.
    pub fn as_str(&self) -> (r: &str)
        ensures
            r@ == self@,
    {
        self.0.as_str()
    }

    /// SubsystemAddr content as the raw String.
    pub fn to_raw(self) -> (r: String)
        ensures
            r@ == self@,
    {
        self.0
    }
}

/// A connected fabrics subsystem (a controller), parsed from the values the
/// kernel exposes for it. Controllers connected over PCIe do not appear
/// here.
#[derive(Debug)]
pub struct Subsystem {
    /// Name of the subsystem.
    pub name: String,
    /// Instance number of the subsystem (controller).
    pub instance: u32,
    /// NVMe Qualified Name (NQN).
    pub nqn: String,
    /// State of the connection; contains `live` when online.
    pub state: String,
    /// The transport type being used (tcp or RDMA).
    pub transport: String,
    /// Address containing a comma-separated list of tokens,
    /// for example `traddr=X,trsvcid=Y`.
    pub address: SubsystemAddr,
    /// Serial number.
    pub serial: String,
    /// Model number.
    pub model: String,
}

/// The values read from the kernel's files for one controller.
pub struct SubsystemValues {
    /// The subsystem's qualified name.
    pub nqn: String,
    /// The connection state.
    pub state: String,
    /// The transport type.
    pub transport: String,
    /// The raw address token list.
    pub address: String,
    /// The serial number.
    pub serial: String,
    /// The model number.
    pub model: String,
}

/// The decimal digit character for a value below ten.
pub open spec fn digit_char(d: int) -> char {
    ((0x30 + d) as u32) as char
}

/// The decimal digits of `v`, most significant first.
pub open spec fn spec_decimal(v: int) -> Seq<char>
    decreases v,
{
    if v <= 0 {
        Seq::empty()
    } else {
        spec_decimal(v / 10).push(digit_char(v % 10))
    }
}

/// The canonical decimal rendering: `0` for zero, no leading zeros
/// otherwise.
pub open spec fn spec_decimal_str(v: int) -> Seq<char> {
    if v == 0 {
        "0"@
    } else {
        spec_decimal(v)
    }
}

/// The content of a sequence of ASCII digit bytes.
spec fn digit_chars(bytes: Seq<u8>) -> Seq<char> {
    bytes.map_values(|b: u8| b as char)
}

/// Renders a number in decimal.
pub fn u64_to_string(v: u64) -> (r: String)
    ensures
        r@ == spec_decimal_str(v as int),
{
    if v == 0 {
        proof {
            reveal_strlit("0");
        }
        return String::from_str("0");
    }
    // Collect digit bytes, least significant first.
    let mut digits: Vec<u8> = Vec::new();
    let mut rest: u64 = v;
    while rest > 0
        invariant
            spec_decimal(v as int) == spec_decimal(rest as int) + digit_chars(digits@).reverse(),
            forall|j: int| 0 <= j < digits@.len() ==> #[trigger] digits@[j] < 0x80,
        decreases rest,
    {
        let ghost digits_before = digits@;
        let ghost rest_before = rest as int;
        let d = (rest % 10) as u8;
        let b = 0x30 + d;
        digits.push(b);
        rest = rest / 10;
        proof {
            assert(b as u32 == 0x30 + rest_before % 10);
            vstd::utf8::char_u32_cast(b as char, b as u32);
            assert((b as char) == digit_char(rest_before % 10));
            assert(digit_chars(digits@).reverse() =~= seq![b as char] + digit_chars(
                digits_before,
            ).reverse());
            assert(spec_decimal(rest as int) + (seq![b as char] + digit_chars(
                digits_before,
            ).reverse()) =~= (spec_decimal(rest as int).push(b as char)) + digit_chars(
                digits_before,
            ).reverse());
        }
    }
    // Reverse into most-significant-first order and take the string.
    let mut out: Vec<u8> = Vec::new();
    let mut i: usize = digits.len();
    while i > 0
        invariant
            i <= digits@.len(),
            out@ == digits@.subrange(i as int, digits@.len() as int).reverse(),
            forall|j: int| 0 <= j < digits@.len() ==> #[trigger] digits@[j] < 0x80,
        decreases i,
    {
        i -= 1;
        out.push(digits[i]);
        proof {
            assert(out@ =~= digits@.subrange(i as int, digits@.len() as int).reverse());
        }
    }
    proof {
        assert(digits@.subrange(0, digits@.len() as int) =~= digits@);
    }
    let r = string_from_ascii_bytes(out);
    proof {
        assert(r@ =~= digit_chars(digits@).reverse());
        assert(spec_decimal(0) + digit_chars(digits@).reverse() =~= digit_chars(
            digits@,
        ).reverse());
    }
    r
}

impl Subsystem {
    /// Builds the subsystem from the controller path and the values read
    /// for it. The path must name a controller under the fabrics prefix; a
    /// controller without serial or model is a discovery controller and is
    /// reported as such, not a subsystem.
    pub fn new(source: &str, values: SubsystemValues) -> (r: Result<Subsystem, NvmeError>)
        ensures
            (match r {
                Ok(subsystem) => {
                    &&& "/sys/devices/virtual/nvme-fabrics/ctl/"@ + subsystem.name@ == source@
                    &&& values.serial@.len() > 0
                    &&& values.model@.len() > 0
                    &&& subsystem.nqn == values.nqn
                    &&& subsystem.state == values.state
                    &&& subsystem.transport == values.transport
                    &&& subsystem.address@ == values.address@
                    &&& subsystem.serial == values.serial
                    &&& subsystem.model == values.model
                },
                Err(e) => (match e {
                    NvmeError::InvalidPath { .. } => true,
                    NvmeError::CtlNotFound { .. } => values.serial@.len() == 0
                        || values.model@.len() == 0,
                    _ => false,
                }),
            }),
    {
        let prefix = sysfs_ctrl_prefix();
        let prefix_len = prefix.unicode_len();
        let n = source.unicode_len();
        if n < prefix_len {
            return Err(NvmeError::InvalidPath { path: source.to_owned() });
        }
        let mut i: usize = 0;
        while i < prefix_len
            invariant
                prefix@ == "/sys/devices/virtual/nvme-fabrics/ctl/"@,
                prefix_len == "/sys/devices/virtual/nvme-fabrics/ctl/"@.len(),
                prefix_len <= n == source@.len(),
                i <= prefix_len,
                forall|j: int|
                    0 <= j < i ==> #[trigger] source@[j]
                        == "/sys/devices/virtual/nvme-fabrics/ctl/"@[j],
            decreases prefix_len - i,
        {
            if source.get_char(i) != prefix.get_char(i) {
                return Err(NvmeError::InvalidPath { path: source.to_owned() });
            }
            i += 1;
        }
        let name = source.substring_char(prefix_len, n);
        // The name is "nvme" followed by the instance number; the number is
        // also recoverable from the name, so keep it parsed.
        let instance = match Self::parse_instance(name) {
            Some(instance) => instance,
            None => {
                return Err(NvmeError::InvalidPath { path: source.to_owned() });
            },
        };
        if values.serial.as_str().is_empty() || values.model.as_str().is_empty() {
            // If it has no serial and or model, it is a discovery
            // controller, so we skip it.
            return Err(NvmeError::CtlNotFound { text: String::from_str("discovery controller") });
        }
        proof {
            assert("/sys/devices/virtual/nvme-fabrics/ctl/"@ + source@.subrange(
                prefix_len as int,
                n as int,
            ) =~= source@);
        }
        Ok(
            Subsystem {
                name: name.to_owned(),
                instance,
                nqn: values.nqn,
                state: values.state,
                transport: values.transport,
                address: SubsystemAddr::new(values.address),
                serial: values.serial,
                model: values.model,
            },
        )
    }

    /// The instance number in a controller name such as `nvme3`: the digits
    /// after the `nvme` prefix, when they fit.
    fn parse_instance(name: &str) -> (r: Option<u32>) {
        let n = name.unicode_len();
        if n < 5 {
            return None;
        }
        if name.get_char(0) != 'n' || name.get_char(1) != 'v' || name.get_char(2) != 'm'
            || name.get_char(3) != 'e' {
            return None;
        }
        let mut value: u32 = 0;
        let mut i: usize = 4;
        while i < n
            invariant
                n == name@.len(),
                4 <= i <= n,
            decreases n - i,
        {
            let c = name.get_char(i);
            if !('0' <= c && c <= '9') {
                return None;
            }
            let digit = (c as u32) - ('0' as u32);
            value = match value.checked_mul(10) {
                Some(scaled) => match scaled.checked_add(digit) {
                    Some(next) => next,
                    None => {
                        return None;
                    },
                },
                None => {
                    return None;
                },
            };
            i += 1;
        }
        Some(value)
    }

    /// Refreshes the in-memory connection state of this subsystem with the
    /// state read from the kernel.
    pub fn sync(&mut self, state: String) -> (r: Result<(), NvmeError>)
        ensures
            r is Ok,
            final(self).state == state,
            final(self).name == old(self).name,
            final(self).instance == old(self).instance,
            final(self).nqn == old(self).nqn,
            final(self).transport == old(self).transport,
            final(self).address@ == old(self).address@,
            final(self).serial == old(self).serial,
            final(self).model == old(self).model,
    {
        self.state = state;
        Ok(())
    }

    /// Whether this subsystem serves `nqn` at the given host and port over
    /// the given transport (compared without regard to ASCII case).
    pub fn matches_endpoint(&self, host: &str, port: &str, transport: &str, nqn: &str) -> (r: bool)
        ensures
            r == (self.nqn@ == nqn@ && last_key_value(spec_addr_pairs(self.address@, 0), "traddr"@)
                == Some(host@) && last_key_value(spec_addr_pairs(self.address@, 0), "trsvcid"@)
                == Some(port@) && ascii_lower_bytes(encode_utf8(self.transport@)) == ascii_lower_bytes(encode_utf8(transport@))),
    {
        str_eq(self.nqn.as_str(), nqn) && self.address.match_host_port(host, port)
            && str_eq_ignore_ascii_case(self.transport.as_str(), transport)
    }

    /// Returns the particular subsystem based on the nqn and address, from
    /// the given list of discovered subsystems: the first match, or the
    /// not-found error exactly when nothing matches.
    pub fn get(subsystems: Vec<Subsystem>, host: &str, port: u16, transport: &str, nqn: &str)
        -> (r: Result<Subsystem, NvmeError>)
        ensures
            (match r {
                Ok(subsystem) => subsystem.nqn@ == nqn@,
                Err(e) => e matches NvmeError::SubsystemNotFound { nqn: e_nqn, host: e_host, port:
                e_port } && e_nqn@ == nqn@ && e_host@ == host@ && e_port == port,
            }),
            r is Ok <==> exists|i: int|
                0 <= i < subsystems@.len() && spec_subsystem_matches(
                    #[trigger] subsystems@[i],
                    host@,
                    spec_decimal_str(port as int),
                    transport@,
                    nqn@,
                ),
    {
        let port_string = u64_to_string(port as u64);
        let ghost all = subsystems@;
        let mut i: usize = 0;
        let mut remaining = subsystems;
        while i < remaining.len()
            invariant
                all == subsystems@,
                remaining@ == all,
                i <= all.len(),
                port_string@ == spec_decimal_str(port as int),
                forall|j: int|
                    0 <= j < i ==> !spec_subsystem_matches(
                        #[trigger] all[j],
                        host@,
                        spec_decimal_str(port as int),
                        transport@,
                        nqn@,
                    ),
            decreases all.len() - i,
        {
            if remaining[i].matches_endpoint(host, port_string.as_str(), transport, nqn) {
                proof {
                    assert(spec_subsystem_matches(
                        all[i as int],
                        host@,
                        spec_decimal_str(port as int),
                        transport@,
                        nqn@,
                    ));
                }
                let found = remaining.remove(i);
                return Ok(found);
            }
            i += 1;
        }
        proof {
            assert forall|j: int| 0 <= j < all.len() implies !spec_subsystem_matches(
                #[trigger] all[j],
                host@,
                spec_decimal_str(port as int),
                transport@,
                nqn@,
            ) by {}
        }
        Err(
            NvmeError::SubsystemNotFound {
                nqn: nqn.to_owned(),
                host: host.to_owned(),
                port,
            },
        )
    }

    /// Gets all subsystems registered for a given nqn, from the given list
    /// of discovered subsystems: exactly those carrying the name, in order,
    /// or the not-found error exactly when there are none.
    pub fn try_from_nqn(subsystems: Vec<Subsystem>, nqn: &str) -> (r: Result<
        Vec<Subsystem>,
        NvmeError,
    >)
        ensures
            (match r {
                Ok(matching) => matching@.len() > 0 && (forall|i: int|
                    0 <= i < matching@.len() ==> (#[trigger] matching@[i]).nqn@ == nqn@),
                Err(e) => {
                    &&& e matches NvmeError::NqnNotFound { nqn: e_nqn } && e_nqn@ == nqn@
                    &&& forall|i: int|
                        0 <= i < subsystems@.len() ==> (#[trigger] subsystems@[i]).nqn@ != nqn@
                },
            }),
    {
        let mut matching: Vec<Subsystem> = Vec::new();
        let mut rest = subsystems;
        let ghost all = rest@;
        while rest.len() > 0
            invariant
                all.len() >= rest@.len(),
                rest@ == all.subrange(all.len() - rest@.len(), all.len() as int),
                forall|i: int| 0 <= i < matching@.len() ==> (#[trigger] matching@[i]).nqn@ == nqn@,
                (forall|j: int|
                    0 <= j < all.len() - rest@.len() ==> (#[trigger] all[j]).nqn@ != nqn@)
                    || matching@.len() > 0,
            decreases rest@.len(),
        {
            let ghost rest_before = rest@;
            let subsystem = rest.remove(0);
            proof {
                assert(rest@ =~= all.subrange(all.len() - rest@.len(), all.len() as int));
                assert(subsystem == all[all.len() - rest_before.len()]);
            }
            if str_eq(subsystem.nqn.as_str(), nqn) {
                matching.push(subsystem);
            }
        }
        if matching.len() == 0 {
            proof {
                assert(all.subrange(all.len() as int, all.len() as int) =~= Seq::<
                    Subsystem,
                >::empty());
            }
            Err(NvmeError::NqnNotFound { nqn: nqn.to_owned() })
        } else {
            Ok(matching)
        }
    }
}

/// Whether a subsystem serves `nqn` at the host and port over the
/// transport, the port rendered in decimal and the transport compared
/// without regard to ASCII case.
pub open spec fn spec_subsystem_matches(
    subsystem: Subsystem,
    host: Seq<char>,
    port: Seq<char>,
    transport: Seq<char>,
    nqn: Seq<char>,
) -> bool {
    &&& subsystem.nqn@ == nqn
    &&& last_key_value(spec_addr_pairs(subsystem.address@, 0), "traddr"@) == Some(host)
    &&& last_key_value(spec_addr_pairs(subsystem.address@, 0), "trsvcid"@) == Some(port)
    &&& ascii_lower_bytes(encode_utf8(subsystem.transport@)) == ascii_lower_bytes(encode_utf8(transport))
}

/// The byte sequence with every ASCII uppercase letter lowered.
pub open spec fn ascii_lower_bytes(s: Seq<u8>) -> Seq<u8> {
    s.map_values(
        |b: u8|
            if 0x41 <= b <= 0x5a {
                (b + 32) as u8
            } else {
                b
            },
    )
}

/// String equality up to ASCII case.
fn str_eq_ignore_ascii_case(a: &str, b: &str) -> (r: bool)
    ensures
        r == (ascii_lower_bytes(a.spec_bytes()) == ascii_lower_bytes(b.spec_bytes())),
{
    let abytes = a.as_bytes();
    let bbytes = b.as_bytes();
    if abytes.len() != bbytes.len() {
        proof {
            assert(ascii_lower_bytes(a.spec_bytes()).len() != ascii_lower_bytes(
                b.spec_bytes(),
            ).len());
        }
        return false;
    }
    let n = abytes.len();
    let mut i: usize = 0;
    while i < n
        invariant
            n == abytes@.len() == bbytes@.len(),
            abytes@ == a.spec_bytes(),
            bbytes@ == b.spec_bytes(),
            i <= n,
            forall|j: int|
                0 <= j < i ==> ascii_lower_bytes(abytes@)[j] == ascii_lower_bytes(bbytes@)[j],
        decreases n - i,
    {
        let ca = lower_byte(abytes[i]);
        let cb = lower_byte(bbytes[i]);
        if ca != cb {
            proof {
                assert(ascii_lower_bytes(abytes@)[i as int] != ascii_lower_bytes(
                    bbytes@,
                )[i as int]);
            }
            return false;
        }
        i += 1;
    }
    proof {
        assert(ascii_lower_bytes(abytes@) =~= ascii_lower_bytes(bbytes@));
    }
    true
}

/// Lowers one ASCII uppercase letter.
fn lower_byte(b: u8) -> (r: u8)
    ensures
        r == (if 0x41 <= b <= 0x5a {
            (b + 32) as u8
        } else {
            b
        }),
{
    if 0x41 <= b && b <= 0x5a {
        b + 32
    } else {
        b
    }
}

} // verus!
