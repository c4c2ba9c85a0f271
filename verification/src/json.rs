//! The frame writer.
//!
//! An outbound request is sent as one JSON text: the method name, the
//! caller's correlation id, an optional channel, and the parameters, in that
//! order. The whole text is assembled here, character by character, against a
//! specification of exactly which characters leave the client: string
//! contents are escaped as JSON requires, numbers are rendered in decimal,
//! and absent optional fields are rendered as null.

use vstd::prelude::*;
use vstd::string::StrSliceExecFns;

use crate::api::OrderType;
use crate::api::TimeInForce;
use crate::codec::hex_digit;
use crate::request::NewOrder;
use crate::request::Params;
use crate::request::Request;

verus! {

/// The JSON escape of one character: quote and backslash get a backslash,
/// control characters become a universal escape, all else stands as it is.
pub open spec fn escape_char(c: char) -> Seq<char> {
    if c == '"' {
        seq!['\\', '"']
    } else if c == '\\' {
        seq!['\\', '\\']
    } else if (c as u32) < 32 {
        seq!['\\', 'u', '0', '0', hex_digit(c as u32 as int / 16), hex_digit(c as u32 as int % 16)]
    } else {
        seq![c]
    }
}

/// The body of a JSON string literal holding `s`: each character escaped.
pub open spec fn escaped(s: Seq<char>) -> Seq<char>
    decreases s.len(),
{
    if s.len() == 0 {
        Seq::empty()
    } else {
        escaped(s.drop_last()) + escape_char(s.last())
    }
}

/// A JSON string literal holding `s`.
pub open spec fn json_string(s: Seq<char>) -> Seq<char> {
    seq!['"'] + escaped(s) + seq!['"']
}

/// The decimal digits of the nonnegative number `n`, most significant first.
pub open spec fn decimal_mag_chars(n: int) -> Seq<char>
    recommends
        0 <= n,
    decreases n,
{
    if n < 10 {
        seq![hex_digit(n)]
    } else {
        decimal_mag_chars(n / 10).push(hex_digit(n % 10))
    }
}

/// The decimal rendering of `n`, a minus sign first when `n` is negative.
pub open spec fn decimal_chars(n: int) -> Seq<char> {
    if n < 0 {
        seq!['-'] + decimal_mag_chars(-n)
    } else {
        decimal_mag_chars(n)
    }
}

/// A JSON boolean.
pub open spec fn json_bool(b: bool) -> Seq<char> {
    if b {
        "true"@
    } else {
        "false"@
    }
}

/// An optional JSON string: null when absent.
pub open spec fn json_opt_string(o: Option<String>) -> Seq<char> {
    match o {
        None => "null"@,
        Some(s) => json_string(s@),
    }
}

/// An optional bare value already rendered by the caller — a number kept as
/// its decimal text — written without quotes: null when absent.
pub open spec fn json_opt_raw(o: Option<String>) -> Seq<char> {
    match o {
        None => "null"@,
        Some(s) => s@,
    }
}

/// An optional JSON boolean: null when absent.
pub open spec fn json_opt_bool(o: Option<bool>) -> Seq<char> {
    match o {
        None => "null"@,
        Some(b) => json_bool(b),
    }
}

/// An optional order type, spelled as the wire expects it: null when absent.
pub open spec fn json_opt_order_type(o: Option<OrderType>) -> Seq<char> {
    match o {
        None => "null"@,
        Some(k) => json_string(k.spec_str()),
    }
}

/// An optional time in force, spelled as the wire expects it: null when
/// absent.
pub open spec fn json_opt_time_in_force(o: Option<TimeInForce>) -> Seq<char> {
    match o {
        None => "null"@,
        Some(t) => json_string(t.spec_str()),
    }
}

/// The elements of a JSON array of strings, separated by commas.
pub open spec fn json_string_items(elems: Seq<String>) -> Seq<char>
    decreases elems.len(),
{
    if elems.len() == 0 {
        Seq::empty()
    } else if elems.len() == 1 {
        json_string(elems[0]@)
    } else {
        json_string_items(elems.drop_last()) + seq![','] + json_string(elems.last()@)
    }
}

/// A JSON array of strings.
pub open spec fn json_string_array(elems: Seq<String>) -> Seq<char> {
    seq!['['] + json_string_items(elems) + seq![']']
}

/// The lowercase hexadecimal digit character of `d`.
fn hex_digit_char(d: u32) -> (r: char)
    requires
        d < 16,
    ensures
        r == hex_digit(d as int),
{
    if d == 0 {
        '0'
    } else if d == 1 {
        '1'
    } else if d == 2 {
        '2'
    } else if d == 3 {
        '3'
    } else if d == 4 {
        '4'
    } else if d == 5 {
        '5'
    } else if d == 6 {
        '6'
    } else if d == 7 {
        '7'
    } else if d == 8 {
        '8'
    } else if d == 9 {
        '9'
    } else if d == 10 {
        'a'
    } else if d == 11 {
        'b'
    } else if d == 12 {
        'c'
    } else if d == 13 {
        'd'
    } else if d == 14 {
        'e'
    } else {
        'f'
    }
}

/// Appends the JSON escape of the characters of `s`.
fn push_escaped(out: &mut String, s: &str)
    ensures
        final(out)@ == old(out)@ + escaped(s@),
{
    let n = s.unicode_len();
    let mut i: usize = 0;
    proof {
        assert(s@.subrange(0, 0) =~= Seq::<char>::empty());
        assert(out@ =~= old(out)@ + escaped(s@.subrange(0, 0)));
    }
    while i < n
        invariant
            n == s@.len(),
            i <= n,
            out@ == old(out)@ + escaped(s@.subrange(0, i as int)),
        decreases n - i,
    {
        let c = s.get_char(i);
        proof {
            let prefix = s@.subrange(0, i as int);
            let extended = s@.subrange(0, i as int + 1);
            assert(extended.drop_last() =~= prefix);
            assert(extended.last() == c);
        }
        if c == '"' {
            out.push('\\');
            out.push('"');
        } else if c == '\\' {
            out.push('\\');
            out.push('\\');
        } else if (c as u32) < 32 {
            out.push('\\');
            out.push('u');
            out.push('0');
            out.push('0');
            out.push(hex_digit_char((c as u32) / 16));
            out.push(hex_digit_char((c as u32) % 16));
        } else {
            out.push(c);
        }
        proof {
            assert(out@ =~= old(out)@ + escaped(s@.subrange(0, i as int + 1)));
        }
        i = i + 1;
    }
    proof {
        assert(s@.subrange(0, n as int) =~= s@);
    }
}

/// Appends a JSON string literal holding `s`.
fn push_json_string(out: &mut String, s: &str)
    ensures
        final(out)@ == old(out)@ + json_string(s@),
{
    out.push('"');
    push_escaped(out, s);
    out.push('"');
    proof {
        assert(out@ =~= old(out)@ + json_string(s@));
    }
}

/// Appends the decimal digits of `n`, most significant first.
fn push_mag_chars(out: &mut String, n: u64)
    ensures
        final(out)@ == old(out)@ + decimal_mag_chars(n as int),
    decreases n,
{
    if n < 10 {
        out.push(hex_digit_char(n as u32));
        proof {
            assert(out@ =~= old(out)@ + decimal_mag_chars(n as int));
        }
    } else {
        push_mag_chars(out, n / 10);
        out.push(hex_digit_char((n % 10) as u32));
        proof {
            assert(out@ =~= old(out)@ + decimal_mag_chars(n as int));
        }
    }
}

/// Appends the decimal rendering of `n`.
fn push_decimal(out: &mut String, n: i64)
    ensures
        final(out)@ == old(out)@ + decimal_chars(n as int),
{
    if n < 0 {
        out.push('-');
        let mag: u64 = if n == i64::MIN {
            9223372036854775808u64
        } else {
            (-n) as u64
        };
        proof {
            assert(mag as int == -(n as int));
        }
        push_mag_chars(out, mag);
        proof {
            assert(out@ =~= old(out)@ + decimal_chars(n as int));
        }
    } else {
        push_mag_chars(out, n as u64);
    }
}

/// Appends a JSON boolean.
fn push_bool(out: &mut String, b: bool)
    ensures
        final(out)@ == old(out)@ + json_bool(b),
{
    if b {
        out.push_str("true");
    } else {
        out.push_str("false");
    }
}

/// Appends an optional JSON string, null when absent.
fn push_opt_string(out: &mut String, o: &Option<String>)
    ensures
        final(out)@ == old(out)@ + json_opt_string(*o),
{
    match o {
        None => out.push_str("null"),
        Some(s) => push_json_string(out, s.as_str()),
    }
}

/// Appends an optional bare value, null when absent.
fn push_opt_raw(out: &mut String, o: &Option<String>)
    ensures
        final(out)@ == old(out)@ + json_opt_raw(*o),
{
    match o {
        None => out.push_str("null"),
        Some(s) => out.push_str(s.as_str()),
    }
}

/// Appends an optional JSON boolean, null when absent.
fn push_opt_bool(out: &mut String, o: &Option<bool>)
    ensures
        final(out)@ == old(out)@ + json_opt_bool(*o),
{
    match o {
        None => out.push_str("null"),
        Some(b) => push_bool(out, *b),
    }
}

/// Appends a JSON array of strings.
fn push_string_array(out: &mut String, elems: &Vec<String>)
    ensures
        final(out)@ == old(out)@ + json_string_array(elems@),
{
    out.push('[');
    let mut k: usize = 0;
    proof {
        assert(elems@.subrange(0, 0) =~= Seq::<String>::empty());
        assert(out@ =~= old(out)@ + seq!['['] + json_string_items(elems@.subrange(0, 0)));
    }
    while k < elems.len()
        invariant
            k <= elems@.len(),
            out@ == old(out)@ + seq!['['] + json_string_items(elems@.subrange(0, k as int)),
        decreases elems@.len() - k,
    {
        if k > 0 {
            out.push(',');
        }
        push_json_string(out, elems[k].as_str());
        proof {
            let prefix = elems@.subrange(0, k as int);
            let extended = elems@.subrange(0, k as int + 1);
            assert(extended.drop_last() =~= prefix);
            assert(extended.last() == elems@[k as int]);
            assert(out@ =~= old(out)@ + seq!['['] + json_string_items(extended));
        }
        k = k + 1;
    }
    out.push(']');
    proof {
        assert(elems@.subrange(0, elems@.len() as int) =~= elems@);
        assert(out@ =~= old(out)@ + json_string_array(elems@));
    }
}

/// The identifying and pricing fields of a new order's JSON object.
pub open spec fn order_head(o: NewOrder) -> Seq<char> {
    "{\"client_order_id\":"@ + json_string(o.client_order_id@) + ",\"symbol\":"@ + json_string(
        o.symbol@,
    ) + ",\"side\":"@ + json_string(o.side.spec_str()) + ",\"type\":"@ + json_opt_order_type(
        o.kind,
    ) + ",\"time_in_force\":"@ + json_opt_time_in_force(o.time_in_force) + ",\"quantity\":"@
        + json_string(o.quantity@) + ",\"price\":"@ + json_string(o.price@)
}

/// The optional trailing fields of a new order's JSON object.
pub open spec fn order_tail(o: NewOrder) -> Seq<char> {
    ",\"stop_price\":"@ + json_opt_raw(o.stop_price) + ",\"expire_time\":"@ + json_opt_string(
        o.expire_time,
    ) + ",\"strict_validate\":"@ + json_opt_bool(o.strict_validate) + ",\"post_only\":"@
        + json_opt_bool(o.post_only) + "}"@
}

/// The JSON object of a new order, every field present, absent options as
/// null, in the order the wire expects.
pub open spec fn json_of_order(o: NewOrder) -> Seq<char> {
    order_head(o) + order_tail(o)
}

/// The JSON object of a request's parameters.
pub open spec fn json_of_params(p: Params) -> Seq<char> {
    match p {
        Params::Login { auth_type, api_key, timestamp, signature } => "{\"type\":"@ + json_string(
            auth_type@,
        ) + ",\"api_key\":"@ + json_string(api_key@) + ",\"timestamp\":"@ + decimal_chars(
            timestamp as int,
        ) + ",\"signature\":"@ + json_string(signature@) + "}"@,
        Params::Empty => "{}"@,
        Params::Symbol { symbol } => "{\"symbol\":"@ + json_string(symbol@) + "}"@,
        Params::Symbols { symbols } => "{\"symbols\":"@ + json_string_array(symbols@) + "}"@,
        Params::SymbolsLimit { symbols, limit } => "{\"symbols\":"@ + json_string_array(symbols@)
            + ",\"limit\":"@ + decimal_chars(limit as int) + "}"@,
        Params::WalletBalance { currency } => "{\"currency\":"@ + json_string(currency@) + "}"@,
        Params::NewOrder(order) => json_of_order(order),
        Params::CancelOrder { client_order_id } => "{\"client_order_id\":"@ + json_string(
            client_order_id@,
        ) + "}"@,
        Params::ReplaceOrder { client_order_id, new_client_order_id, quantity, price } => (
        "{\"client_order_id\":"@ + json_string(client_order_id@) + ",\"new_client_order_id\":"@
            + json_string(new_client_order_id@) + ",\"quantity\":"@ + json_string(quantity@)
            + ",\"price\":"@ + json_string(price@) + "}"@),
    }
}

/// The whole JSON text of one outbound frame.
pub open spec fn json_of_request(r: Request) -> Seq<char> {
    match r {
        Request::Default { method, id, params } => "{\"method\":"@ + json_string(method.spec_str())
            + ",\"id\":"@ + decimal_chars(id as int) + ",\"params\":"@ + json_of_params(params)
            + "}"@,
        Request::ChannelRequest { method, ch, id, params } => "{\"method\":"@ + json_string(
            method.spec_str(),
        ) + ",\"ch\":"@ + json_string(ch@) + ",\"id\":"@ + decimal_chars(id as int)
            + ",\"params\":"@ + json_of_params(params) + "}"@,
    }
}

/// Appends the identifying and pricing fields of a new order's object.
#[verifier::rlimit(50)]
fn push_order_head(out: &mut String, o: &NewOrder)
    ensures
        final(out)@ == old(out)@ + order_head(*o),
{
    out.push_str("{\"client_order_id\":");
    push_json_string(out, o.client_order_id.as_str());
    out.push_str(",\"symbol\":");
    push_json_string(out, o.symbol.as_str());
    out.push_str(",\"side\":");
    push_json_string(out, o.side.as_str());
    out.push_str(",\"type\":");
    match &o.kind {
        None => out.push_str("null"),
        Some(k) => push_json_string(out, k.as_str()),
    }
    out.push_str(",\"time_in_force\":");
    match &o.time_in_force {
        None => out.push_str("null"),
        Some(t) => push_json_string(out, t.as_str()),
    }
    out.push_str(",\"quantity\":");
    push_json_string(out, o.quantity.as_str());
    out.push_str(",\"price\":");
    push_json_string(out, o.price.as_str());
    proof {
        assert(out@ =~= old(out)@ + order_head(*o));
    }
}

/// Appends the optional trailing fields of a new order's object.
#[verifier::rlimit(50)]
fn push_order_tail(out: &mut String, o: &NewOrder)
    ensures
        final(out)@ == old(out)@ + order_tail(*o),
{
    out.push_str(",\"stop_price\":");
    push_opt_raw(out, &o.stop_price);
    out.push_str(",\"expire_time\":");
    push_opt_string(out, &o.expire_time);
    out.push_str(",\"strict_validate\":");
    push_opt_bool(out, &o.strict_validate);
    out.push_str(",\"post_only\":");
    push_opt_bool(out, &o.post_only);
    out.push_str("}");
    proof {
        assert(out@ =~= old(out)@ + order_tail(*o));
    }
}

/// Appends the JSON object of a new order.
fn push_order(out: &mut String, o: &NewOrder)
    ensures
        final(out)@ == old(out)@ + json_of_order(*o),
{
    push_order_head(out, o);
    push_order_tail(out, o);
    proof {
        assert(out@ =~= old(out)@ + json_of_order(*o));
    }
}

/// Appends the JSON object of a request's parameters.
fn push_params(out: &mut String, p: &Params)
    ensures
        final(out)@ == old(out)@ + json_of_params(*p),
{
    match p {
        Params::Login { auth_type, api_key, timestamp, signature } => {
            out.push_str("{\"type\":");
            push_json_string(out, auth_type.as_str());
            out.push_str(",\"api_key\":");
            push_json_string(out, api_key.as_str());
            out.push_str(",\"timestamp\":");
            push_decimal(out, *timestamp);
            out.push_str(",\"signature\":");
            push_json_string(out, signature.as_str());
            out.push_str("}");
            proof {
                assert(out@ =~= old(out)@ + json_of_params(*p));
            }
        },
        Params::Empty => {
            out.push_str("{}");
        },
        Params::Symbol { symbol } => {
            out.push_str("{\"symbol\":");
            push_json_string(out, symbol.as_str());
            out.push_str("}");
            proof {
                assert(out@ =~= old(out)@ + json_of_params(*p));
            }
        },
        Params::Symbols { symbols } => {
            out.push_str("{\"symbols\":");
            push_string_array(out, symbols);
            out.push_str("}");
            proof {
                assert(out@ =~= old(out)@ + json_of_params(*p));
            }
        },
        Params::SymbolsLimit { symbols, limit } => {
            out.push_str("{\"symbols\":");
            push_string_array(out, symbols);
            out.push_str(",\"limit\":");
            push_decimal(out, *limit as i64);
            out.push_str("}");
            proof {
                assert(out@ =~= old(out)@ + json_of_params(*p));
            }
        },
        Params::WalletBalance { currency } => {
            out.push_str("{\"currency\":");
            push_json_string(out, currency.as_str());
            out.push_str("}");
            proof {
                assert(out@ =~= old(out)@ + json_of_params(*p));
            }
        },
        Params::NewOrder(order) => {
            push_order(out, order);
        },
        Params::CancelOrder { client_order_id } => {
            out.push_str("{\"client_order_id\":");
            push_json_string(out, client_order_id.as_str());
            out.push_str("}");
            proof {
                assert(out@ =~= old(out)@ + json_of_params(*p));
            }
        },
        Params::ReplaceOrder { client_order_id, new_client_order_id, quantity, price } => {
            out.push_str("{\"client_order_id\":");
            push_json_string(out, client_order_id.as_str());
            out.push_str(",\"new_client_order_id\":");
            push_json_string(out, new_client_order_id.as_str());
            out.push_str(",\"quantity\":");
            push_json_string(out, quantity.as_str());
            out.push_str(",\"price\":");
            push_json_string(out, price.as_str());
            out.push_str("}");
            proof {
                assert(out@ =~= old(out)@ + json_of_params(*p));
            }
        },
    }
}

/// The JSON text of one outbound frame, exactly as it leaves the client.
pub fn render_request(request: &Request) -> (r: String)
    ensures
        r@ == json_of_request(*request),
{
    let mut out = String::new();
    match request {
        Request::Default { method, id, params } => {
            out.push_str("{\"method\":");
            push_json_string(&mut out, method.as_str());
            out.push_str(",\"id\":");
            push_decimal(&mut out, *id);
            out.push_str(",\"params\":");
            push_params(&mut out, params);
            out.push_str("}");
            proof {
                assert(out@ =~= json_of_request(*request));
            }
        },
        Request::ChannelRequest { method, ch, id, params } => {
            out.push_str("{\"method\":");
            push_json_string(&mut out, method.as_str());
            out.push_str(",\"ch\":");
            push_json_string(&mut out, ch.as_str());
            out.push_str(",\"id\":");
            push_decimal(&mut out, *id);
            out.push_str(",\"params\":");
            push_params(&mut out, params);
            out.push_str("}");
            proof {
                assert(out@ =~= json_of_request(*request));
            }
        },
    }
    out
}

} // verus!
