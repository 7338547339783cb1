use aqua_gateway::codec::{
    BAD_ACTION, BAD_BASE64, BAD_UTF8, answer_base64, convert, decode_text, encode_text, handle_tool_base64,
    read_decoded,
};
use aqua_gateway::dice::{Dice, ask_dice, can_decide, handle_tool_dice, throw};
use aqua_gateway::reply::Reply;
use aqua_gateway::subnet::{answer_subnet, handle_tool_subnet};
use aqua_gateway::text_stats::{answer_text_stats, handle_tool_text_stats, text_stats};
use aqua_gateway::timestamp::{
    ask_time, handle_tool_timestamp_get, handle_tool_timestamp_post, timestamp_reply,
};
use aqua_gateway::uuid::{handle_tool_uuid, uuid};
use serde_json::Value;

fn tool_doc(text: &str) -> Value {
    serde_json::from_str(text).unwrap()
}

fn message_of(reply: &Reply) -> String {
    reply.json["error"]["message"].as_str().unwrap().to_string()
}

// ---------------------------------------------------------------------------
// Bodies
// ---------------------------------------------------------------------------
#[test]
fn tools_refuse_bodies_that_cannot_be_used() {
    let r = handle_tool_text_stats(None);
    assert_eq!(r.status, 400);
    assert_eq!(message_of(&r), "Bad Request");
    let r = handle_tool_subnet(Some(b"{"));
    assert_eq!(r.status, 400);
    assert_eq!(message_of(&r), "Bad Request: invalid JSON body");
    let r = handle_tool_base64(Some(b"not json"));
    assert_eq!(message_of(&r), "Bad Request: invalid JSON body");
    assert_eq!(handle_tool_timestamp_post(None).err().unwrap().status, 400);
    assert_eq!(handle_tool_dice(Some(b"")).err().unwrap().status, 400);
}

// ---------------------------------------------------------------------------
// Base64
// ---------------------------------------------------------------------------
#[test]
fn base64_encodes_by_default() {
    let r = answer_base64(&tool_doc(r#"{"text": "hello"}"#));
    assert_eq!(r.status, 200);
    assert_eq!(r.json, tool_doc(r#"{"result": "aGVsbG8="}"#));
    let r = handle_tool_base64(Some(r#"{"action": "encode", "text": "你好"}"#.as_bytes()));
    assert_eq!(r.json, tool_doc(r#"{"result": "5L2g5aW9"}"#));
}

#[test]
fn base64_decodes() {
    let r = answer_base64(&tool_doc(r#"{"action": "decode", "text": "aGVsbG8="}"#));
    assert_eq!(r.status, 200);
    assert_eq!(r.json, tool_doc(r#"{"result": "hello"}"#));
}

#[test]
fn base64_refuses_what_it_cannot_do() {
    let r = answer_base64(&tool_doc(r#"{"action": "decode"}"#));
    assert_eq!((r.status, message_of(&r)), (400, "缺少 text 字段".to_string()));
    let r = answer_base64(&tool_doc(r#"{"text": "a", "action": "upper"}"#));
    assert_eq!((r.status, message_of(&r)), (400, BAD_ACTION.to_string()));
    let r = answer_base64(&tool_doc(r#"{"text": "a?", "action": "decode"}"#));
    assert_eq!((r.status, message_of(&r)), (400, BAD_BASE64.to_string()));
    let r = answer_base64(&tool_doc(r#"{"text": "/w==", "action": "decode"}"#));
    assert_eq!((r.status, message_of(&r)), (400, BAD_UTF8.to_string()));
}

#[test]
fn base64_reads_back_what_it_wrote() {
    for text in ["", "a", "ab", "abc", "Ünïcödé 你好 \u{1f600}"] {
        let encoded = encode_text(text);
        assert_eq!(convert("decode", &encoded).unwrap(), text);
        assert_eq!(decode_text(&encoded).unwrap(), text);
        assert_eq!(encoded.len(), text.len().div_ceil(3) * 4);
    }
}

#[test]
fn base64_takes_one_text_for_some_bytes() {
    assert_eq!(decode_text("YQ=="), Ok("a".to_string()));
    for text in ["YQ", "YQ=", "YR==", "YQ==YQ==", "Y", "=", "YQ==\n"] {
        assert_eq!(decode_text(text), Err(BAD_BASE64));
    }
}

#[test]
fn decoded_bytes_are_read_as_utf8() {
    assert_eq!(read_decoded(Some(vec![0xe4, 0xbd, 0xa0])), Ok("你".to_string()));
    assert_eq!(read_decoded(Some(vec![0xff])), Err(BAD_UTF8));
    assert_eq!(read_decoded(None), Err(BAD_BASE64));
}

// ---------------------------------------------------------------------------
// Dice
// ---------------------------------------------------------------------------
#[test]
fn dice_are_clamped() {
    let d = ask_dice(&tool_doc("{}"));
    assert_eq!((d.sides, d.count), (6, 1));
    let d = ask_dice(&tool_doc(r#"{"sides": 0, "count": 0}"#));
    assert_eq!((d.sides, d.count), (2, 1));
    let d = ask_dice(&tool_doc(r#"{"sides": 5000, "count": 21}"#));
    assert_eq!((d.sides, d.count), (1000, 20));
    let d = ask_dice(&tool_doc(r#"{"sides": -3, "count": 2.5}"#));
    assert_eq!((d.sides, d.count), (6, 1));
    let d = handle_tool_dice(Some(br#"{"sides": 20, "count": 3}"#)).ok().unwrap();
    assert_eq!((d.sides, d.count), (20, 3));
}

#[test]
fn dice_are_thrown() {
    let d = Dice { sides: 6, count: 3 };
    assert!(can_decide(&d, &[0, 5, 2]));
    assert!(!can_decide(&d, &[0, 6, 2]));
    assert!(!can_decide(&d, &[0, 5]));
    let r = throw(&d, &[0, 5, 2]);
    assert_eq!(r.status, 200);
    assert_eq!(
        r.json,
        tool_doc(r#"{"sides": 6, "count": 3, "rolls": [1, 6, 3], "total": 10}"#)
    );
}

// ---------------------------------------------------------------------------
// UUIDs
// ---------------------------------------------------------------------------
#[test]
fn uuids_have_version_and_variant() {
    assert_eq!(uuid(&[0, 0, 0, 0]), "00000000-0000-4000-8000-000000000000");
    assert_eq!(
        uuid(&[u32::MAX, u32::MAX, u32::MAX, u32::MAX]),
        "ffffffff-ffff-4fff-bfff-ffffffffffff"
    );
    assert_eq!(
        uuid(&[0x0403_0201, 0x0807_0605, 0x0c0b_0a09, 0x100f_0e0d]),
        "01020304-0506-4708-890a-0b0c0d0e0f10"
    );
}

#[test]
fn uuids_are_given_out() {
    let r = handle_tool_uuid(&[1, 0, 0, 0]);
    assert_eq!(r.status, 200);
    assert_eq!(r.json, tool_doc(r#"{"uuid": "01000000-0000-4000-8000-000000000000"}"#));
}

// ---------------------------------------------------------------------------
// Times
// ---------------------------------------------------------------------------
#[test]
fn the_time_is_told() {
    let r = handle_tool_timestamp_get(1234567890, "2009-02-13T23:31:30.000Z");
    assert_eq!(r.status, 200);
    assert_eq!(
        r.json,
        tool_doc(
            r#"{"timestamp": 1234567890, "timestamp_ms": 1234567890000, "iso_utc": "2009-02-13T23:31:30.000Z"}"#
        )
    );
}

#[test]
fn times_are_converted() {
    assert_eq!(ask_time(&tool_doc(r#"{"timestamp": 5}"#)).ok(), Some(5));
    assert_eq!(handle_tool_timestamp_post(Some(br#"{"timestamp": 7}"#)).ok(), Some(7));
    let r = timestamp_reply(5, "1970-01-01T00:00:05.000Z", "Thu, 01 Jan 1970 00:00:05 GMT");
    assert_eq!(
        r.json,
        tool_doc(
            r#"{"timestamp": 5, "timestamp_ms": 5000, "iso_utc": "1970-01-01T00:00:05.000Z", "utc": "Thu, 01 Jan 1970 00:00:05 GMT"}"#
        )
    );
}

#[test]
fn times_before_the_epoch_are_refused() {
    for text in ["{}", r#"{"timestamp": 0}"#, r#"{"timestamp": -1}"#, r#"{"timestamp": "5"}"#] {
        let r = ask_time(&tool_doc(text)).err().unwrap();
        assert_eq!(r.status, 400);
        assert_eq!(message_of(&r), "缺少有效的 timestamp 字段（秒级）");
    }
}

// ---------------------------------------------------------------------------
// Statistics
// ---------------------------------------------------------------------------
#[test]
fn texts_are_counted() {
    let r = answer_text_stats(&tool_doc(
        r#"{"text": "Hello hello world, 你好 the\nfox the a1b2 ok"}"#,
    ));
    assert_eq!(r.status, 200);
    assert_eq!(
        r.json,
        tool_doc(
            r#"{"chars": 41, "chars_no_space": 33, "cjk_chars": 2, "words": 8, "lines": 2,
                "read_minutes": 1, "top_words": [
                {"word": "hello", "count": 2}, {"word": "the", "count": 2},
                {"word": "a1b2", "count": 1}, {"word": "fox", "count": 1},
                {"word": "world", "count": 1}]}"#
        )
    );
}

#[test]
fn only_ten_words_are_ranked() {
    let s = text_stats("aaa bbb ccc ddd eee fff ggg hhh iii jjj kkk kkk");
    assert_eq!(s.top_words.len(), 10);
    assert_eq!(s.top_words[0].0, "kkk");
    assert_eq!(s.top_words[0].1, 2);
    assert_eq!(s.top_words[9].0, "iii");
}

#[test]
fn lines_and_minutes_are_at_least_one() {
    let s = text_stats("\n");
    assert_eq!((s.lines, s.read_minutes), (1, 1));
    let s = text_stats("a\r\nb\n\nc");
    assert_eq!(s.lines, 4);
    let long = "word ".repeat(1200);
    assert_eq!(text_stats(&long).read_minutes, 3);
}

#[test]
fn empty_texts_are_refused() {
    for text in ["{}", r#"{"text": ""}"#, r#"{"text": 5}"#, "[]"] {
        let r = answer_text_stats(&tool_doc(text));
        assert_eq!(r.status, 400);
        assert_eq!(message_of(&r), "缺少 text 字段");
    }
}

// ---------------------------------------------------------------------------
// Subnets
// ---------------------------------------------------------------------------
#[test]
fn a_network_is_described() {
    let r = answer_subnet(&tool_doc(r#"{"cidr": " 192.168.1.100/24 "}"#));
    assert_eq!(r.status, 200);
    assert_eq!(
        r.json,
        tool_doc(
            r#"{"input": "192.168.1.0/24", "query_ip": "192.168.1.100", "prefix": 24,
                "netmask": "255.255.255.0", "wildcard": "0.0.0.255",
                "binary_netmask": "11111111.11111111.11111111.00000000",
                "network": "192.168.1.0", "broadcast": "192.168.1.255",
                "first_host": "192.168.1.1", "last_host": "192.168.1.254",
                "total_addresses": 256, "usable_hosts": 254, "ip_class": "C",
                "scope": "私有/内网（RFC 1918 等）", "ip_int": 3232235876,
                "ip_hex": "0xc0a80164"}"#
        )
    );
}

#[test]
fn an_address_and_a_prefix_make_a_network() {
    let a = answer_subnet(&tool_doc(r#"{"ip": "8.8.8.8", "prefix": 16}"#));
    let b = handle_tool_subnet(Some(br#"{"cidr": "8.8.8.8/16"}"#));
    assert_eq!(a.json, b.json);
    assert_eq!(a.json["scope"], Value::from("公网"));
    assert_eq!(a.json["ip_class"], Value::from("A"));
    let c = answer_subnet(&tool_doc(r#"{"ip": "8.8.8.8"}"#));
    assert_eq!(c.json["prefix"], Value::from(24));
    let d = answer_subnet(&tool_doc(r#"{"cidr": "8.8.8.8"}"#));
    assert_eq!(c.json, d.json);
}

#[test]
fn the_ends_of_the_range_of_prefixes_work() {
    let all = answer_subnet(&tool_doc(r#"{"cidr": "1.2.3.4/0"}"#));
    assert_eq!(all.json["total_addresses"], Value::from(4294967296u64));
    assert_eq!(all.json["usable_hosts"], Value::from(4294967294u64));
    assert_eq!(all.json["first_host"], Value::from("0.0.0.1"));
    let pair = answer_subnet(&tool_doc(r#"{"cidr": "10.0.0.1/31"}"#));
    assert_eq!(pair.json["usable_hosts"], Value::from(2));
    assert_eq!(pair.json["first_host"], Value::from("10.0.0.0"));
    assert_eq!(pair.json["last_host"], Value::from("10.0.0.1"));
    let one = answer_subnet(&tool_doc(r#"{"cidr": "240.0.0.1/32"}"#));
    assert_eq!(one.json["usable_hosts"], Value::from(1));
    assert_eq!(one.json["first_host"], one.json["last_host"]);
    assert_eq!(one.json["ip_class"], Value::from("E（保留）"));
}

#[test]
fn networks_that_are_none_are_refused() {
    let r = answer_subnet(&tool_doc("{}"));
    assert_eq!(r.status, 400);
    assert!(message_of(&r).starts_with("缺少入参"));
    let r = answer_subnet(&tool_doc(r#"{"cidr": "  "}"#));
    assert!(message_of(&r).starts_with("缺少入参"));
    let r = answer_subnet(&tool_doc(r#"{"cidr": "fe80::/10"}"#));
    assert!(message_of(&r).starts_with("IPv6 子网暂不支持"));
    let r = answer_subnet(&tool_doc(r#"{"cidr": "1.2.3.4/33"}"#));
    assert_eq!(message_of(&r), "掩码位不合法：「33」应为 0~32 的整数");
    let r = answer_subnet(&tool_doc(r#"{"cidr": "1.2.3/24"}"#));
    assert_eq!(message_of(&r), "IP 格式不正确：「1.2.3」不是合法的 IPv4 地址");
}
