//! The IPv4 subnet calculator.
use crate::body::{opt_bytes, read_json_body, tool_body};
use crate::ip::{
    dotted, ipv4_number, is_private_ipv4, law_ipv4_reads_back, law_private_blocks, parse_ipv4,
    private_ipv4, u32_to_ipv4,
};
use crate::json::{
    JsonView, field, json_contents, object, of_text, of_unsigned, text_at, text_field, unsigned_at,
    unsigned_field, with,
};
use crate::number::{
    binary, decimal, digit_char, hex, law_decimal_digits, law_decimal_reads_back,
    law_reading_is_strict, parse_unsigned, push_binary, push_decimal, push_hex, read_unsigned,
};
use crate::reply::{Reply, ReplyView, err_res, error_reply, json_res, success};
use crate::text::{
    around, contains_char, digit, first_place, join, lemma_first_place, opt_string, opt_text, sides,
    split_once, trim, trimmed, white_space,
};
use vstd::arithmetic::power2::{lemma2_to64, lemma_pow2_pos, lemma_pow2_unfold, pow2};
use vstd::prelude::*;

verus! {

// ---------------------------------------------------------------------------
// The calculation
// ---------------------------------------------------------------------------
/// How many addresses share a prefix of the given length.
pub open spec fn block_size(prefix: nat) -> nat
    decreases 32 - prefix,
{
    if prefix >= 32 {
        1
    } else {
        2 * block_size(prefix + 1)
    }
}

/// The lowest address of the block that an address is in.
pub open spec fn network_of(ip: nat, prefix: nat) -> nat {
    ip / block_size(prefix) * block_size(prefix)
}

/// The highest address of the block that an address is in.
pub open spec fn broadcast_of(ip: nat, prefix: nat) -> nat {
    (network_of(ip, prefix) + block_size(prefix) - 1) as nat
}

/// The mask of a prefix: as many ones as the prefix is long, then zeros.
pub open spec fn mask_of(prefix: nat) -> nat {
    (0x1_0000_0000 - block_size(prefix)) as nat
}

/// The mask with ones and zeros exchanged.
pub open spec fn wildcard_of(prefix: nat) -> nat {
    (block_size(prefix) - 1) as nat
}

/// The lowest address that a host can have. A block of one or two addresses gives
/// all of them to hosts; any other keeps its lowest and its highest back.
pub open spec fn first_host_of(ip: nat, prefix: nat) -> nat {
    if prefix >= 31 {
        network_of(ip, prefix)
    } else {
        network_of(ip, prefix) + 1
    }
}

/// The highest address that a host can have.
pub open spec fn last_host_of(ip: nat, prefix: nat) -> nat {
    if prefix >= 31 {
        broadcast_of(ip, prefix)
    } else {
        (broadcast_of(ip, prefix) - 1) as nat
    }
}

/// How many addresses hosts can have.
pub open spec fn usable_of(prefix: nat) -> nat {
    if prefix >= 31 {
        block_size(prefix)
    } else {
        (block_size(prefix) - 2) as nat
    }
}

/// A block of addresses around one of them.
pub struct Subnet {
    pub ip: u32,
    pub prefix: u32,
    pub mask: u32,
    pub wildcard: u32,
    pub network: u32,
    pub broadcast: u32,
    pub first_host: u32,
    pub last_host: u32,
    pub total: u64,
    pub usable: u64,
}

/// The size of a block is a power of two and divides the number of all addresses.
proof fn lemma_block_size(prefix: nat)
    requires
        prefix <= 32,
    ensures
        1 <= block_size(prefix) <= 0x1_0000_0000,
        0x1_0000_0000nat % block_size(prefix) == 0,
        prefix == 0 ==> block_size(prefix) == 0x1_0000_0000,
        prefix == 31 ==> block_size(prefix) == 2,
        prefix < 31 ==> block_size(prefix) >= 4,
    decreases prefix,
{
    if prefix == 0 {
        assert(block_size(0) == 0x1_0000_0000) by {
            reveal_with_fuel(block_size, 33);
        }
    } else {
        let shorter = (prefix - 1) as nat;
        lemma_block_size(shorter);
        let b = block_size(prefix);
        assert(block_size(shorter) == 2 * b);
        let q = 0x1_0000_0000nat / (2 * b);
        assert(0x1_0000_0000 == (2 * b) * q) by {
            vstd::arithmetic::div_mod::lemma_fundamental_div_mod(0x1_0000_0000, (2 * b) as int);
        }
        assert((2 * b) * q == (2 * q) * b) by (nonlinear_arith);
        vstd::arithmetic::div_mod::lemma_mod_multiples_basic((2 * q) as int, b as int);
        assert(block_size(32) == 1);
        assert(block_size(31) == 2 * block_size(32));
        assert(block_size(30) == 2 * block_size(31));
        if prefix < 31 {
            lemma_block_shrinks(prefix, 30);
        }
        assert(b >= 1) by {
            lemma_block_shrinks(prefix, 32);
        }
    }
}

/// A longer prefix is shared by no more addresses.
proof fn lemma_block_shrinks(short: nat, long: nat)
    requires
        short <= long <= 32,
    ensures
        block_size(long) <= block_size(short),
        block_size(long) >= 1,
    decreases 32 - short,
{
    if short < long {
        lemma_block_shrinks(short + 1, long);
    } else if long < 32 {
        lemma_block_shrinks(long + 1, 32);
    }
}

/// A block lies around its address and within the addresses that there are.
pub proof fn law_block_holds_its_address(ip: u32, prefix: nat)
    requires
        prefix <= 32,
    ensures
        network_of(ip as nat, prefix) <= ip <= broadcast_of(ip as nat, prefix),
        broadcast_of(ip as nat, prefix) <= u32::MAX,
        broadcast_of(ip as nat, prefix) - network_of(ip as nat, prefix) + 1 == block_size(prefix),
{
    lemma_block_size(prefix);
    let b = block_size(prefix);
    let i = ip as nat / b;
    let q = 0x1_0000_0000nat / b;
    vstd::arithmetic::div_mod::lemma_fundamental_div_mod(ip as int, b as int);
    vstd::arithmetic::div_mod::lemma_fundamental_div_mod(0x1_0000_0000, b as int);
    assert(ip as int == b * i + ip as nat % b);
    assert(b * i == i * b) by (nonlinear_arith);
    assert(0x1_0000_0000 == b * q);
    assert(i < q) by (nonlinear_arith)
        requires
            b * i < b * q,
            b >= 1,
    ;
    assert(i * b + b <= b * q) by (nonlinear_arith)
        requires
            i + 1 <= q,
            b >= 1,
    ;
}

/// Computes the block around an address.
pub fn subnet(ip: u32, prefix: u32) -> (r: Subnet)
    requires
        prefix <= 32,
    ensures
        r.ip == ip,
        r.prefix == prefix,
        r.mask == mask_of(prefix as nat),
        r.wildcard == wildcard_of(prefix as nat),
        r.network == network_of(ip as nat, prefix as nat),
        r.broadcast == broadcast_of(ip as nat, prefix as nat),
        r.first_host == first_host_of(ip as nat, prefix as nat),
        r.last_host == last_host_of(ip as nat, prefix as nat),
        r.total == block_size(prefix as nat),
        r.usable == usable_of(prefix as nat),
{
    let mut size: u64 = 1;
    let mut p: u32 = 32;
    while p > prefix
        invariant
            prefix <= p <= 32,
            size == block_size(p as nat),
        decreases p,
    {
        proof {
            lemma_block_size(p as nat);
        }
        size = 2 * size;
        p -= 1;
    }
    proof {
        lemma_block_size(prefix as nat);
        law_block_holds_its_address(ip, prefix as nat);
        vstd::arithmetic::div_mod::lemma_fundamental_div_mod(ip as int, size as int);
    }
    assert(ip as nat / size as nat * size as nat == size as int * (ip as int / size as int))
        by (nonlinear_arith);
    let network: u64 = ip as u64 - ip as u64 % size;
    let broadcast: u64 = network + (size - 1);
    let (first_host, last_host, usable): (u64, u64, u64) = if prefix >= 31 {
        (network, broadcast, size)
    } else {
        (network + 1, broadcast - 1, size - 2)
    };
    Subnet {
        ip,
        prefix,
        mask: (0x1_0000_0000 - size) as u32,
        wildcard: (size - 1) as u32,
        network: network as u32,
        broadcast: broadcast as u32,
        first_host: first_host as u32,
        last_host: last_host as u32,
        total: size,
        usable,
    }
}

// ---------------------------------------------------------------------------
// The question
// ---------------------------------------------------------------------------
/// What a caller who names no network is told.
pub const NO_NETWORK: &'static str =
    "缺少入参：请提供 {\"cidr\": \"192.168.1.0/24\"} 或 {\"ip\": \"192.168.1.100\", \"prefix\": 24}";

/// What a caller who asks for an IPv6 network is told.
pub const NO_IPV6: &'static str = "IPv6 子网暂不支持，请提供 IPv4 网段（如 192.168.1.0/24）";

/// The network that a document asks for: the one in its member `cidr`, else the
/// one that its members `ip` and `prefix` make, with a prefix of 24 by default.
pub open spec fn asked_network(document: JsonView) -> Option<Seq<char>> {
    match text_at(document, "cidr"@) {
        Some(cidr) => Some(trimmed(cidr)),
        None => match text_at(document, "ip"@) {
            Some(ip) => Some(
                trimmed(ip) + "/"@ + decimal(
                    match unsigned_at(document, "prefix"@) {
                        Some(p) => p as nat,
                        None => 24,
                    },
                ),
            ),
            None => None,
        },
    }
}

/// What stands before and after the slash of a network. Without a slash the prefix
/// is 24.
pub open spec fn network_parts(network: Seq<char>) -> (Seq<char>, Seq<char>) {
    match sides(network, '/') {
        Some((ip, prefix)) => (trimmed(ip), trimmed(prefix)),
        None => (network, "24"@),
    }
}

/// The address and the length of the prefix of a network, or what is wrong with it.
pub open spec fn network_number(network: Option<Seq<char>>) -> Result<(nat, nat), Seq<char>> {
    match network {
        Some(n) => if n.len() == 0 {
            Err(NO_NETWORK@)
        } else if n.contains(':') {
            Err(NO_IPV6@)
        } else {
            let (ip, prefix) = network_parts(n);
            match read_unsigned(prefix, 32) {
                Some(p) => match ipv4_number(ip) {
                    Some(v) => Ok((v, p)),
                    None => Err("IP 格式不正确：「"@ + ip + "」不是合法的 IPv4 地址"@),
                },
                None => Err("掩码位不合法：「"@ + prefix + "」应为 0~32 的整数"@),
            }
        },
        None => Err(NO_NETWORK@),
    }
}

/// Reads which network a document asks for.
pub fn asked(document: &serde_json::Value) -> (r: Option<String>)
    ensures
        opt_string(r) == asked_network(json_contents(*document)),
{
    match text_field(document, "cidr") {
        Some(cidr) => Some(trim(cidr).to_string()),
        None => match text_field(document, "ip") {
            Some(ip) => {
                let prefix: u64 = match unsigned_field(document, "prefix") {
                    Some(p) => p,
                    None => 24,
                };
                let mut out = join(trim(ip), "/");
                push_decimal(&mut out, prefix as u128);
                Some(out)
            },
            None => None,
        },
    }
}

/// Reads the address and the length of the prefix of a network.
pub fn parse_network(network: Option<&str>) -> (r: Result<(u32, u32), String>)
    ensures
        match r {
            Ok((ip, prefix)) => prefix <= 32 && network_number(opt_text(network)) == Ok::<
                (nat, nat),
                Seq<char>,
            >((ip as nat, prefix as nat)),
            Err(e) => network_number(opt_text(network)) == Err::<(nat, nat), Seq<char>>(e@),
        },
{
    let n = match network {
        Some(n) => n,
        None => return Err(NO_NETWORK.to_string()),
    };
    if n.is_empty() {
        return Err(NO_NETWORK.to_string());
    }
    if contains_char(n, ':') {
        return Err(NO_IPV6.to_string());
    }
    let (ip_text, prefix_text) = match split_once(n, '/') {
        Some((ip, p)) => (trim(ip), trim(p)),
        None => (n, "24"),
    };
    let prefix = match parse_unsigned(prefix_text, 32) {
        Some(p) => p as u32,
        None => return Err(
            around("掩码位不合法：「", prefix_text, "」应为 0~32 的整数"),
        ),
    };
    match parse_ipv4(ip_text) {
        Some(ip) => Ok((ip, prefix)),
        None => Err(around("IP 格式不正确：「", ip_text, "」不是合法的 IPv4 地址")),
    }
}

// ---------------------------------------------------------------------------
// The answer
// ---------------------------------------------------------------------------
/// The historical class of an address, by its highest number.
pub open spec fn class_of(ip: nat) -> Seq<char> {
    let a = ip / 0x100_0000;
    if a <= 127 {
        "A"@
    } else if a <= 191 {
        "B"@
    } else if a <= 223 {
        "C"@
    } else if a <= 239 {
        "D（组播）"@
    } else {
        "E（保留）"@
    }
}

/// Whether an address has a place on the public internet.
pub open spec fn scope_of(ip: nat) -> Seq<char> {
    if private_ipv4(dotted(ip)) {
        "私有/内网（RFC 1918 等）"@
    } else {
        "公网"@
    }
}

/// A mask in base two: four groups of eight digits, with dots between them.
pub open spec fn mask_bits(mask: nat) -> Seq<char> {
    binary(mask / 0x100_0000, 8) + seq!['.'] + binary(mask / 0x1_0000 % 0x100, 8) + seq!['.']
        + binary(mask / 0x100 % 0x100, 8) + seq!['.'] + binary(mask % 0x100, 8)
}

/// The document that describes the block around an address.
pub open spec fn subnet_json(ip: nat, prefix: nat) -> JsonView {
    JsonView::Object(
        map![
            "input"@ => JsonView::Str(dotted(network_of(ip, prefix)) + "/"@ + decimal(prefix)),
            "query_ip"@ => JsonView::Str(dotted(ip)),
            "prefix"@ => JsonView::Int(prefix as int),
            "netmask"@ => JsonView::Str(dotted(mask_of(prefix))),
            "wildcard"@ => JsonView::Str(dotted(wildcard_of(prefix))),
            "binary_netmask"@ => JsonView::Str(mask_bits(mask_of(prefix))),
            "network"@ => JsonView::Str(dotted(network_of(ip, prefix))),
            "broadcast"@ => JsonView::Str(dotted(broadcast_of(ip, prefix))),
            "first_host"@ => JsonView::Str(dotted(first_host_of(ip, prefix))),
            "last_host"@ => JsonView::Str(dotted(last_host_of(ip, prefix))),
            "total_addresses"@ => JsonView::Int(block_size(prefix) as int),
            "usable_hosts"@ => JsonView::Int(usable_of(prefix) as int),
            "ip_class"@ => JsonView::Str(class_of(ip)),
            "scope"@ => JsonView::Str(scope_of(ip)),
            "ip_int"@ => JsonView::Int(ip as int),
            "ip_hex"@ => JsonView::Str("0x"@ + hex(ip, 8)),
        ],
    )
}

/// Names the historical class of an address.
fn ip_class(ip: u32) -> (r: &'static str)
    ensures
        r@ == class_of(ip as nat),
{
    let a: u32 = ip / 0x100_0000;
    if a <= 127 {
        "A"
    } else if a <= 191 {
        "B"
    } else if a <= 223 {
        "C"
    } else if a <= 239 {
        "D（组播）"
    } else {
        "E（保留）"
    }
}

/// Writes a mask in base two.
fn binary_mask(mask: u32) -> (r: String)
    ensures
        r@ == mask_bits(mask as nat),
{
    let mut out = String::new();
    push_binary(&mut out, mask / 0x100_0000, 8);
    out.push('.');
    push_binary(&mut out, mask / 0x1_0000 % 0x100, 8);
    out.push('.');
    push_binary(&mut out, mask / 0x100 % 0x100, 8);
    out.push('.');
    push_binary(&mut out, mask % 0x100, 8);
    assert(out@ =~= mask_bits(mask as nat));
    out
}

/// Writes an address as the text of a document.
fn address(v: u32) -> (r: serde_json::Value)
    ensures
        json_contents(r) == JsonView::Str(dotted(v as nat)),
{
    of_text(u32_to_ipv4(v).as_str())
}

/// Describes the block around an address.
pub fn subnet_document(ip: u32, prefix: u32) -> (r: serde_json::Value)
    requires
        prefix <= 32,
    ensures
        json_contents(r) == subnet_json(ip as nat, prefix as nat),
{
    let s = subnet(ip, prefix);
    let ip_text = u32_to_ipv4(ip);
    let scope = if is_private_ipv4(ip_text.as_str()) {
        "私有/内网（RFC 1918 等）"
    } else {
        "公网"
    };
    let mut input = join(u32_to_ipv4(s.network).as_str(), "/");
    push_decimal(&mut input, prefix as u128);
    let mut ip_hex = "0x".to_string();
    push_hex(&mut ip_hex, ip, 8);
    let head = with(
        with(
            with(
                with(object(), "input", of_text(input.as_str())),
                "query_ip",
                of_text(ip_text.as_str()),
            ),
            "prefix",
            of_unsigned(prefix as u64),
        ),
        "netmask",
        address(s.mask),
    );
    let middle = with(
        with(
            with(
                with(head, "wildcard", address(s.wildcard)),
                "binary_netmask",
                of_text(binary_mask(s.mask).as_str()),
            ),
            "network",
            address(s.network),
        ),
        "broadcast",
        address(s.broadcast),
    );
    let hosts = with(
        with(
            with(
                with(middle, "first_host", address(s.first_host)),
                "last_host",
                address(s.last_host),
            ),
            "total_addresses",
            of_unsigned(s.total),
        ),
        "usable_hosts",
        of_unsigned(s.usable),
    );
    with(
        with(
            with(
                with(hosts, "ip_class", of_text(ip_class(ip))),
                "scope",
                of_text(scope),
            ),
            "ip_int",
            of_unsigned(ip as u64),
        ),
        "ip_hex",
        of_text(ip_hex.as_str()),
    )
}

/// The reply to a document that asks for a subnet.
pub open spec fn subnet_reply(document: JsonView) -> ReplyView {
    match network_number(asked_network(document)) {
        Ok((ip, prefix)) => success(subnet_json(ip, prefix)),
        Err(message) => error_reply(400, message),
    }
}

/// Answers a document that asks for a subnet.
pub fn answer_subnet(document: &serde_json::Value) -> (r: Reply)
    ensures
        r@ == subnet_reply(json_contents(*document)),
{
    let network = asked(document);
    let parsed = match &network {
        Some(n) => parse_network(Some(n.as_str())),
        None => parse_network(None),
    };
    match parsed {
        Ok((ip, prefix)) => json_res(subnet_document(ip, prefix)),
        Err(message) => err_res(400, message.as_str()),
    }
}

/// Answers a request to the subnet calculator.
pub fn handle_tool_subnet(body: Option<&[u8]>) -> (r: Reply)
    ensures
        r@ == (match tool_body(opt_bytes(body)) {
            Ok(document) => subnet_reply(document),
            Err(reply) => reply,
        }),
{
    match read_json_body(body) {
        Ok(document) => answer_subnet(&document),
        Err(reply) => reply,
    }
}

// ---------------------------------------------------------------------------
// Laws
// ---------------------------------------------------------------------------
/// Two addresses have the same network exactly when one lies in the block of the
/// other.
pub proof fn law_same_network_is_same_block(ip: u32, other: u32, prefix: nat)
    requires
        prefix <= 32,
    ensures
        network_of(other as nat, prefix) == network_of(ip as nat, prefix) <==> network_of(
            ip as nat,
            prefix,
        ) <= other <= broadcast_of(ip as nat, prefix),
{
    law_block_holds_its_address(ip, prefix);
    law_block_holds_its_address(other, prefix);
    let b = block_size(prefix);
    let i = ip as nat / b;
    let j = other as nat / b;
    if i < j {
        assert(i * b + b <= j * b) by (nonlinear_arith)
            requires
                i + 1 <= j,
                b >= 0,
        ;
    } else if j < i {
        assert(j * b + b <= i * b) by (nonlinear_arith)
            requires
                j + 1 <= i,
                b >= 0,
        ;
    }
}

/// The hosts of a block are within it, and there are as many as the answer says.
pub proof fn law_hosts_are_counted(ip: u32, prefix: nat)
    requires
        prefix <= 32,
    ensures
        network_of(ip as nat, prefix) <= first_host_of(ip as nat, prefix) <= last_host_of(
            ip as nat,
            prefix,
        ) <= broadcast_of(ip as nat, prefix),
        last_host_of(ip as nat, prefix) - first_host_of(ip as nat, prefix) + 1 == usable_of(prefix),
        prefix == 32 ==> usable_of(prefix) == 1,
        prefix == 31 ==> usable_of(prefix) == 2,
{
    lemma_block_size(prefix);
    law_block_holds_its_address(ip, prefix);
}

/// A mask and its wildcard together make up all 32 ones.
pub proof fn law_wildcard_completes_mask(prefix: nat)
    requires
        prefix <= 32,
    ensures
        mask_of(prefix) + wildcard_of(prefix) == u32::MAX,
{
    lemma_block_size(prefix);
}

/// Two to a power.
spec fn power_of_two(n: nat) -> nat
    decreases n,
{
    if n == 0 {
        1
    } else {
        2 * power_of_two((n - 1) as nat)
    }
}

/// The number of prefixes of a length, times the number of addresses that share
/// one, is the number of all addresses.
proof fn lemma_blocks_fill(prefix: nat)
    requires
        prefix <= 32,
    ensures
        power_of_two(prefix) * block_size(prefix) == 0x1_0000_0000,
        power_of_two(prefix) >= 1,
    decreases prefix,
{
    if prefix == 0 {
        lemma_block_size(0);
    } else {
        let shorter = (prefix - 1) as nat;
        lemma_blocks_fill(shorter);
        let t = power_of_two(shorter);
        let b = block_size(prefix);
        assert(block_size(shorter) == 2 * b);
        assert((2 * t) * b == t * (2 * b)) by (nonlinear_arith);
    }
}

/// Doubling a number appends a zero in base two.
proof fn lemma_zeros(n: nat, width: nat, prefix: nat)
    requires
        prefix <= 32,
    ensures
        binary(n * block_size(prefix), (width + 32 - prefix) as nat) == binary(n, width) + Seq::new(
            (32 - prefix) as nat,
            |i: int| '0',
        ),
    decreases 32 - prefix,
{
    let zeros = Seq::new((32 - prefix) as nat, |i: int| '0');
    if prefix == 32 {
        assert(n * 1 == n);
        assert(binary(n, width) + zeros =~= binary(n, width));
    } else {
        lemma_zeros(n, width, prefix + 1);
        let fewer = Seq::new((32 - (prefix + 1)) as nat, |i: int| '0');
        let half = n * block_size(prefix + 1);
        assert(n * block_size(prefix) == 2 * half) by (nonlinear_arith)
            requires
                block_size(prefix) == 2 * block_size(prefix + 1),
                half == n * block_size(prefix + 1),
        ;
        assert((2 * half) / 2 == half);
        assert((2 * half) % 2 == 0);
        assert(digit_char(0) == '0');
        assert(zeros =~= fewer.push('0'));
        assert(binary(n, width) + zeros =~= (binary(n, width) + fewer).push('0'));
    }
}

/// One less than a power of two is all ones in base two.
proof fn lemma_ones(n: nat)
    ensures
        power_of_two(n) >= 1,
        binary((power_of_two(n) - 1) as nat, n) == Seq::new(n, |i: int| '1'),
    decreases n,
{
    let ones = Seq::new(n, |i: int| '1');
    if n == 0 {
        assert(ones =~= Seq::<char>::empty());
    } else {
        let less = (n - 1) as nat;
        lemma_ones(less);
        let m = (power_of_two(less) - 1) as nat;
        assert((power_of_two(n) - 1) as nat == 2 * m + 1);
        assert((2 * m + 1) / 2 == m);
        assert((2 * m + 1) % 2 == 1);
        assert(digit_char(1) == '1');
        assert(ones =~= Seq::new(less, |i: int| '1').push('1'));
    }
}

/// In base two a mask is as many ones as the prefix is long, then zeros.
pub proof fn law_mask_is_ones_then_zeros(prefix: nat)
    requires
        prefix <= 32,
    ensures
        binary(mask_of(prefix), 32) == Seq::new(prefix, |i: int| '1') + Seq::new(
            (32 - prefix) as nat,
            |i: int| '0',
        ),
{
    lemma_blocks_fill(prefix);
    lemma_block_size(prefix);
    lemma_ones(prefix);
    let t = power_of_two(prefix);
    let b = block_size(prefix);
    let n = (t - 1) as nat;
    assert(n * b == t * b - b) by (nonlinear_arith)
        requires
            n == t - 1,
    ;
    lemma_zeros(n, prefix, prefix);
}

/// As many addresses share a prefix as the bits behind it can tell apart.
pub proof fn law_block_is_a_power_of_two(prefix: nat)
    requires
        prefix <= 32,
    ensures
        block_size(prefix) == pow2((32 - prefix) as nat),
    decreases 32 - prefix,
{
    lemma2_to64();
    if prefix < 32 {
        law_block_is_a_power_of_two(prefix + 1);
        lemma_pow2_unfold((32 - prefix) as nat);
    }
}

/// A block begins at a multiple of its size, at or below its address, and ends before the
/// next; with 32 bits of mask, the mask leaves out just the bits within the block.
pub proof fn law_network_is_a_multiple(ip: u32, prefix: nat)
    requires
        prefix <= 32,
    ensures
        network_of(ip as nat, prefix) % pow2((32 - prefix) as nat) == 0,
        network_of(ip as nat, prefix) <= ip < network_of(ip as nat, prefix) + pow2(
            (32 - prefix) as nat,
        ),
        broadcast_of(ip as nat, prefix) == network_of(ip as nat, prefix) + pow2(
            (32 - prefix) as nat,
        ) - 1,
        mask_of(prefix) == 0x1_0000_0000 - pow2((32 - prefix) as nat),
        wildcard_of(prefix) == pow2((32 - prefix) as nat) - 1,
{
    law_block_is_a_power_of_two(prefix);
    law_block_holds_its_address(ip, prefix);
    lemma_block_size(prefix);
    vstd::arithmetic::div_mod::lemma_mod_multiples_basic(
        ip as int / block_size(prefix) as int,
        block_size(prefix) as int,
    );
}

/// Up to a prefix of 30 the lowest and the highest address of a block are no hosts, and all
/// between them are; with a prefix of 31 or 32 every address of the block is one.
pub proof fn law_hosts_leave_out_the_ends(ip: u32, prefix: nat)
    requires
        prefix <= 32,
    ensures
        prefix <= 30 ==> first_host_of(ip as nat, prefix) == network_of(ip as nat, prefix) + 1
            && last_host_of(ip as nat, prefix) == broadcast_of(ip as nat, prefix) - 1 && usable_of(
            prefix,
        ) == pow2((32 - prefix) as nat) - 2,
        prefix == 31 || prefix == 32 ==> first_host_of(ip as nat, prefix) == network_of(
            ip as nat,
            prefix,
        ) && last_host_of(ip as nat, prefix) == broadcast_of(ip as nat, prefix) && usable_of(prefix)
            == pow2((32 - prefix) as nat),
        block_size(prefix) == pow2((32 - prefix) as nat),
{
    law_block_is_a_power_of_two(prefix);
    law_block_holds_its_address(ip, prefix);
    lemma_block_size(prefix);
}

/// The classes of addresses begin at 0.0.0.0, 128.0.0.0, 192.0.0.0, 224.0.0.0 and 240.0.0.0,
/// and the scope of an address is private where its block is.
pub proof fn law_classes_and_scopes(ip: u32)
    ensures
        ip < 0x8000_0000 ==> class_of(ip as nat) == "A"@,
        0x8000_0000 <= ip < 0xc000_0000 ==> class_of(ip as nat) == "B"@,
        0xc000_0000 <= ip < 0xe000_0000 ==> class_of(ip as nat) == "C"@,
        0xe000_0000 <= ip < 0xf000_0000 ==> class_of(ip as nat) == "D（组播）"@,
        0xf000_0000 <= ip ==> class_of(ip as nat) == "E（保留）"@,
        scope_of(ip as nat) == (if ip <= 0x00ff_ffff || 0x0a00_0000 <= ip <= 0x0aff_ffff
            || 0x7f00_0000 <= ip <= 0x7fff_ffff || 0xa9fe_0000 <= ip <= 0xa9fe_ffff || 0xac10_0000
            <= ip <= 0xac1f_ffff || 0xc0a8_0000 <= ip <= 0xc0a8_ffff {
            "私有/内网（RFC 1918 等）"@
        } else {
            "公网"@
        }),
{
    law_private_blocks(ip);
}

/// The digits of a mask in base two are those of the whole number, with a dot after each
/// eight.
pub proof fn law_mask_bits_are_dotted(mask: u32)
    ensures
        mask_bits(mask as nat).len() == 35,
        mask_bits(mask as nat)[8] == '.' && mask_bits(mask as nat)[17] == '.' && mask_bits(
            mask as nat,
        )[26] == '.',
        mask_bits(mask as nat).take(8) + mask_bits(mask as nat).subrange(9, 17) + mask_bits(
            mask as nat,
        ).subrange(18, 26) + mask_bits(mask as nat).subrange(27, 35) == binary(mask as nat, 32),
{
    let m = mask as nat;
    lemma_binary_parts(m, 8, 24);
    lemma_binary_parts(m / 0x100, 8, 16);
    lemma_binary_parts(m / 0x1_0000, 8, 8);
    lemma_binary_len(m / 0x100_0000, 8);
    lemma_binary_len(m / 0x1_0000 % 0x100, 8);
    lemma_binary_len(m / 0x100 % 0x100, 8);
    lemma_binary_len(m % 0x100, 8);
    lemma2_to64();
    lemma_binary_low(m / 0x1_0000, 8);
    lemma_binary_low(m / 0x100, 8);
    lemma_binary_low(m, 8);
    let bits = mask_bits(m);
    let a = binary(m / 0x100_0000, 8);
    let b = binary(m / 0x1_0000 % 0x100, 8);
    let c = binary(m / 0x100 % 0x100, 8);
    let d = binary(m % 0x100, 8);
    assert(m / 0x100 / 0x100 == m / 0x1_0000);
    assert(m / 0x1_0000 / 0x100 == m / 0x100_0000);
    assert(bits.take(8) =~= a);
    assert(bits.subrange(9, 17) =~= b);
    assert(bits.subrange(18, 26) =~= c);
    assert(bits.subrange(27, 35) =~= d);
    assert(binary(m, 32) == binary(m / 0x100, 24) + binary(m, 8));
    assert(binary(m / 0x100, 24) == binary(m / 0x1_0000, 16) + binary(m / 0x100, 8));
    assert(binary(m / 0x1_0000, 16) == binary(m / 0x100_0000, 8) + binary(m / 0x1_0000, 8));
}

/// A number in base two has as many digits as are asked for.
proof fn lemma_binary_len(n: nat, width: nat)
    ensures
        binary(n, width).len() == width,
    decreases width,
{
    if width > 0 {
        lemma_binary_len(n / 2, (width - 1) as nat);
    }
}

/// The digits of a number in base two are the higher ones, then the lower ones.
proof fn lemma_binary_parts(n: nat, low: nat, high: nat)
    ensures
        binary(n, high + low) == binary(n / pow2(low), high) + binary(n, low),
    decreases low,
{
    lemma2_to64();
    if low == 0 {
        assert(n / 1 == n);
        assert(binary(n, high) + binary(n, 0) =~= binary(n, high));
    } else {
        let less = (low - 1) as nat;
        lemma_binary_parts(n / 2, less, high);
        lemma_pow2_unfold(low);
        lemma_pow2_pos(less);
        vstd::arithmetic::div_mod::lemma_div_denominator(n as int, 2, pow2(less) as int);
        assert(n / 2 / pow2(less) == n / pow2(low));
        assert(binary(n, high + low) =~= binary(n / pow2(low), high) + binary(n, low));
    }
}

/// The lowest digits of a number in base two are those of what is below a power of two.
proof fn lemma_binary_low(n: nat, width: nat)
    ensures
        binary(n, width) == binary(n % pow2(width), width),
    decreases width,
{
    if width > 0 {
        let less = (width - 1) as nat;
        lemma_pow2_unfold(width);
        lemma_pow2_pos(less);
        let half = pow2(less);
        let r = n % pow2(width);
        let q = n / pow2(width);
        vstd::arithmetic::div_mod::lemma_fundamental_div_mod(n as int, pow2(width) as int);
        assert(n == 2 * (half * q) + r) by (nonlinear_arith)
            requires
                n == pow2(width) * q + r,
                pow2(width) == 2 * half,
        ;
        assert(n / 2 == half * q + r / 2 && n % 2 == r % 2);
        assert(half * q == q * half) by (nonlinear_arith);
        assert(n as int / 2 == q * half + r as int / 2);
        vstd::arithmetic::div_mod::lemma_fundamental_div_mod_converse(
            (n / 2) as int,
            half as int,
            q as int,
            (r / 2) as int,
        );
        assert((n / 2) % half == r / 2);
        lemma_binary_low(n / 2, less);
        lemma_binary_low(r / 2, less);
        assert((r / 2) % half == r / 2) by {
            vstd::arithmetic::div_mod::lemma_small_mod(r / 2, half);
        }
        assert(binary(n / 2, less) == binary(r / 2, less));
        assert(binary(n, width) == binary(n / 2, less).push(digit_char(n % 2)));
        assert(binary(r, width) == binary(r / 2, less).push(digit_char(r % 2)));
    } else {
        lemma2_to64();
        assert(binary(n, 0) =~= binary(n % pow2(0), 0));
    }
}

/// The members of a description are told apart by their names.
proof fn lemma_subnet_keys()
    ensures
        "input"@.len() == 5 && "input"@[0] == 'i',
        "scope"@.len() == 5 && "scope"@[0] == 's',
        "prefix"@.len() == 6 && "prefix"@[3] == 'f',
        "ip_int"@.len() == 6 && "ip_int"@[3] == 'i',
        "ip_hex"@.len() == 6 && "ip_hex"@[3] == 'h',
        "netmask"@.len() == 7 && "netmask"@[3] == 'm',
        "network"@.len() == 7 && "network"@[3] == 'w',
        "query_ip"@.len() == 8 && "query_ip"@[0] == 'q',
        "wildcard"@.len() == 8 && "wildcard"@[0] == 'w',
        "ip_class"@.len() == 8 && "ip_class"@[0] == 'i',
        "broadcast"@.len() == 9 && "broadcast"@[0] == 'b',
        "last_host"@.len() == 9 && "last_host"@[0] == 'l',
        "first_host"@.len() == 10,
        "usable_hosts"@.len() == 12,
        "binary_netmask"@.len() == 14,
        "total_addresses"@.len() == 15,
{
    reveal_strlit("input");
    reveal_strlit("query_ip");
    reveal_strlit("prefix");
    reveal_strlit("netmask");
    reveal_strlit("wildcard");
    reveal_strlit("binary_netmask");
    reveal_strlit("network");
    reveal_strlit("broadcast");
    reveal_strlit("first_host");
    reveal_strlit("last_host");
    reveal_strlit("total_addresses");
    reveal_strlit("usable_hosts");
    reveal_strlit("ip_class");
    reveal_strlit("scope");
    reveal_strlit("ip_int");
    reveal_strlit("ip_hex");
}

/// Each member of a description says what its name says.
pub proof fn law_descriptions_say_what_they_name(ip: nat, prefix: nat)
    ensures
        field(subnet_json(ip, prefix), "input"@) == Some(
            JsonView::Str(dotted(network_of(ip, prefix)) + "/"@ + decimal(prefix)),
        ),
        field(subnet_json(ip, prefix), "query_ip"@) == Some(JsonView::Str(dotted(ip))),
        field(subnet_json(ip, prefix), "prefix"@) == Some(JsonView::Int(prefix as int)),
        field(subnet_json(ip, prefix), "netmask"@) == Some(JsonView::Str(dotted(mask_of(prefix)))),
        field(subnet_json(ip, prefix), "wildcard"@) == Some(
            JsonView::Str(dotted(wildcard_of(prefix))),
        ),
        field(subnet_json(ip, prefix), "binary_netmask"@) == Some(
            JsonView::Str(mask_bits(mask_of(prefix))),
        ),
        field(subnet_json(ip, prefix), "network"@) == Some(
            JsonView::Str(dotted(network_of(ip, prefix))),
        ),
        field(subnet_json(ip, prefix), "broadcast"@) == Some(
            JsonView::Str(dotted(broadcast_of(ip, prefix))),
        ),
        field(subnet_json(ip, prefix), "first_host"@) == Some(
            JsonView::Str(dotted(first_host_of(ip, prefix))),
        ),
        field(subnet_json(ip, prefix), "last_host"@) == Some(
            JsonView::Str(dotted(last_host_of(ip, prefix))),
        ),
        field(subnet_json(ip, prefix), "total_addresses"@) == Some(
            JsonView::Int(block_size(prefix) as int),
        ),
        field(subnet_json(ip, prefix), "usable_hosts"@) == Some(
            JsonView::Int(usable_of(prefix) as int),
        ),
        field(subnet_json(ip, prefix), "ip_class"@) == Some(JsonView::Str(class_of(ip))),
        field(subnet_json(ip, prefix), "scope"@) == Some(JsonView::Str(scope_of(ip))),
        field(subnet_json(ip, prefix), "ip_int"@) == Some(JsonView::Int(ip as int)),
        field(subnet_json(ip, prefix), "ip_hex"@) == Some(JsonView::Str("0x"@ + hex(ip, 8))),
{
    lemma_subnet_keys();
}

/// The network that a document asks for is its `cidr`, else its `ip` with its `prefix`, else
/// its `ip` with a prefix of 24.
pub proof fn law_questions_are_read(document: JsonView, text: Seq<char>)
    ensures
        field(document, "cidr"@) == Some(JsonView::Str(text)) ==> asked_network(document) == Some(
            trimmed(text),
        ),
        !(field(document, "cidr"@) matches Some(JsonView::Str(_))) && field(document, "ip"@) == Some(
            JsonView::Str(text),
        ) ==> asked_network(document) == Some(
            trimmed(text) + "/"@ + decimal(
                match field(document, "prefix"@) {
                    Some(JsonView::Int(n)) => if 0 <= n <= u64::MAX {
                        n as nat
                    } else {
                        24
                    },
                    _ => 24,
                },
            ),
        ),
        !(field(document, "cidr"@) matches Some(JsonView::Str(_))) && !(field(document, "ip"@)
            matches Some(JsonView::Str(_))) ==> asked_network(document) is None,
{
}

/// Every character of a number written in base ten, or as an address, is a digit or a dot.
proof fn lemma_address_chars(v: u32, n: nat)
    ensures
        forall|i: int|
            0 <= i < dotted(v as nat).len() ==> digit(#[trigger] dotted(v as nat)[i]) || dotted(
                v as nat,
            )[i] == '.',
        forall|i: int| 0 <= i < decimal(n).len() ==> digit(#[trigger] decimal(n)[i]),
        dotted(v as nat).len() > 0,
        decimal(n).len() > 0,
{
    let m = v as nat;
    let a = decimal(m / 0x100_0000);
    let b = decimal(m / 0x1_0000 % 0x100);
    let c = decimal(m / 0x100 % 0x100);
    let d = decimal(m % 0x100);
    law_decimal_reads_back(n);
    law_decimal_reads_back(m / 0x100_0000);
    law_decimal_reads_back(m / 0x1_0000 % 0x100);
    law_decimal_reads_back(m / 0x100 % 0x100);
    law_decimal_reads_back(m % 0x100);
    let s = dotted(m);
    assert forall|i: int| 0 <= i < s.len() implies digit(#[trigger] s[i]) || s[i] == '.' by {
        let at_b = a.len() + 1;
        let at_c = at_b + b.len() + 1;
        let at_d = at_c + c.len() + 1;
        if i < a.len() {
            assert(s[i] == a[i]);
        } else if at_b <= i < at_b + b.len() {
            assert(s[i] == b[i - at_b]);
        } else if at_c <= i < at_c + c.len() {
            assert(s[i] == c[i - at_c]);
        } else if at_d <= i {
            assert(s[i] == d[i - at_d]);
        }
    }
}

/// An address with a prefix up to 32 behind a slash is taken as just that, and one without a
/// slash has a prefix of 24. A longer prefix is refused by name, and so are a text with a
/// colon and an empty one.
pub proof fn law_networks_are_read(v: u32, prefix: nat, text: Seq<char>)
    ensures
        prefix <= 32 ==> network_number(Some(dotted(v as nat) + "/"@ + decimal(prefix))) == Ok::<
            (nat, nat),
            Seq<char>,
        >((v as nat, prefix)),
        prefix > 32 ==> network_number(Some(dotted(v as nat) + "/"@ + decimal(prefix))) == Err::<
            (nat, nat),
            Seq<char>,
        >("掩码位不合法：「"@ + decimal(prefix) + "」应为 0~32 的整数"@),
        network_number(Some(dotted(v as nat))) == Ok::<(nat, nat), Seq<char>>((v as nat, 24)),
        text.contains(':') ==> network_number(Some(text)) == Err::<(nat, nat), Seq<char>>(
            "IPv6 子网暂不支持，请提供 IPv4 网段（如 192.168.1.0/24）"@,
        ),
        network_number(Some(Seq::empty())) == network_number(None),
        network_number(None) == Err::<(nat, nat), Seq<char>>(
            "缺少入参：请提供 {\"cidr\": \"192.168.1.0/24\"} 或 {\"ip\": \"192.168.1.100\", \"prefix\": 24}"@,
        ),
{
    reveal_strlit("/");
    reveal_strlit("24");
    let ip = dotted(v as nat);
    let p = decimal(prefix);
    lemma_address_chars(v, prefix);
    law_ipv4_reads_back(v);
    let whole = ip + "/"@ + p;
    assert(whole[ip.len() as int] == '/');
    lemma_first_place(whole, '/');
    lemma_first_place(ip, '/');
    let k = first_place(whole, '/');
    assert(k == ip.len()) by {
        assert(whole.contains('/'));
        if k < ip.len() {
            assert(whole[k] == ip[k]);
        }
    }
    assert(whole.take(k) =~= ip);
    assert(whole.skip(k + 1) =~= p);
    assert(trimmed(ip) == ip) by {
        assert(!white_space(ip[0]));
        assert(!white_space(ip[ip.len() - 1]));
    }
    assert(trimmed(p) == p) by {
        assert(!white_space(p[0]));
        assert(!white_space(p[p.len() - 1]));
    }
    assert(!whole.contains(':')) by {
        assert forall|i: int| 0 <= i < whole.len() implies whole[i] != ':' by {
            if i < ip.len() {
                assert(whole[i] == ip[i]);
            } else if i > ip.len() {
                assert(whole[i] == p[i - ip.len() - 1]);
            }
        }
    }
    assert(!ip.contains(':')) by {
        assert forall|i: int| 0 <= i < ip.len() implies ip[i] != ':' by {}
    }
    assert(!ip.contains('/')) by {
        assert forall|i: int| 0 <= i < ip.len() implies ip[i] != '/' by {}
    }
    assert(sides(ip, '/') is None);
    law_reading_is_strict(p, 32, prefix);
    assert("24"@ =~= decimal(24)) by {
        law_decimal_digits(2, 4);
        law_decimal_digits(0, 2);
        reveal_strlit("0123456789");
    }
    law_reading_is_strict("24"@, 32, 24);
}

/// What stands before the first slash of a network is its address and what stands behind it
/// its prefix, each without the white space around it; what is wrong is told by its text, the
/// prefix first.
pub proof fn law_parts_of_networks(a: Seq<char>, b: Seq<char>)
    requires
        !a.contains('/'),
        !(a + seq!['/'] + b).contains(':'),
    ensures
        network_number(Some(a + seq!['/'] + b)) == (match read_unsigned(trimmed(b), 32) {
            Some(p) => match ipv4_number(trimmed(a)) {
                Some(v) => Ok::<(nat, nat), Seq<char>>((v, p)),
                None => Err(
                    "IP 格式不正确：「"@ + trimmed(a) + "」不是合法的 IPv4 地址"@,
                ),
            },
            None => Err("掩码位不合法：「"@ + trimmed(b) + "」应为 0~32 的整数"@),
        }),
{
    let whole = a + seq!['/'] + b;
    assert(whole[a.len() as int] == '/');
    lemma_first_place(whole, '/');
    let k = first_place(whole, '/');
    assert(k == a.len()) by {
        assert(whole.contains('/'));
        if k < a.len() {
            assert(whole[k] == a[k]);
        }
    }
    assert(whole.take(k) =~= a);
    assert(whole.skip(k + 1) =~= b);
}

/// A document that names a network is answered with its description, and any other is refused
/// with 400.
pub proof fn law_networks_are_answered(document: JsonView)
    ensures
        network_number(asked_network(document)) matches Ok((ip, prefix)) ==> subnet_reply(
            document,
        ).status == 200 && subnet_reply(document).json == subnet_json(ip, prefix),
        network_number(asked_network(document)) matches Err(message) ==> subnet_reply(document)
            == error_reply(400, message),
{
}

} // verus!
