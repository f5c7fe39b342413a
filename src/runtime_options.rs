//! Environment overrides applied to every spawned child: a fixed DNS result order, and
//! runtime option strings with invalid DNS order flags removed.

use vstd::prelude::*;
use crate::text::{
    ascii_lower_seq, eq_ignore_ascii_case, is_prefix, join, join_with, split_whitespace,
    split_ws, starts_with, str_eq, trim, trim_seq, views,
};

verus! {

/// The DNS result order forced on every child process.
pub const SAFE_DNS_RESULT_ORDER: &'static str = "verbatim";

/// An accepted DNS result order, case aside and trimmed.
pub open spec fn valid_order(v: Seq<char>) -> bool {
    ascii_lower_seq(trim_seq(v)) == ascii_lower_seq("ipv4first"@) || ascii_lower_seq(
        trim_seq(v),
    ) == ascii_lower_seq("verbatim"@)
}

pub open spec fn flag_eq() -> Seq<char> {
    "--dns-result-order="@
}

pub open spec fn flag_alone() -> Seq<char> {
    "--dns-result-order"@
}

/// The tokens kept from position `i` on, and whether one was dropped.
pub open spec fn sanitize_from(toks: Seq<Seq<char>>, i: int) -> (Seq<Seq<char>>, bool)
    decreases toks.len() + 1 - i,
{
    if i < 0 || i >= toks.len() {
        (seq![], false)
    } else if is_prefix(flag_eq(), toks[i]) {
        let rest = sanitize_from(toks, i + 1);
        if valid_order(toks[i].subrange(flag_eq().len() as int, toks[i].len() as int)) {
            (seq![toks[i]] + rest.0, rest.1)
        } else {
            (rest.0, true)
        }
    } else if toks[i] == flag_alone() {
        let rest = sanitize_from(toks, i + 2);
        if i + 1 < toks.len() && valid_order(toks[i + 1]) {
            (seq![toks[i], toks[i + 1]] + rest.0, rest.1)
        } else {
            (rest.0, true)
        }
    } else {
        let rest = sanitize_from(toks, i + 1);
        (seq![toks[i]] + rest.0, rest.1)
    }
}

/// The option string without invalid DNS order flags (and the value after a bare flag),
/// tokens joined by single spaces; nothing when no flag had to go.
pub open spec fn sanitize_spec(raw: Seq<char>) -> Option<Seq<char>> {
    let r = sanitize_from(split_ws(raw), 0);
    if r.1 {
        Some(join_with(r.0, " "@))
    } else {
        None
    }
}

/// Whether `value` names an accepted DNS result order.
pub fn is_valid_dns_result_order(value: &str) -> (r: bool)
    ensures
        r == valid_order(value@),
{
    let t = trim(value);
    eq_ignore_ascii_case(t, "ipv4first") || eq_ignore_ascii_case(t, "verbatim")
}

/// Drops invalid `--dns-result-order` flags from a runtime option string, keeping every
/// other token; `None` when nothing was dropped.
pub fn sanitize_dns_result_order_args(raw: &str) -> (r: Option<String>)
    ensures
        match r {
            Some(s) => sanitize_spec(raw@) == Some(s@),
            None => sanitize_spec(raw@).is_none(),
        },
{
    let tokens = split_whitespace(raw);
    let ghost toks = views(tokens@);
    let mut kept: Vec<String> = Vec::new();
    let mut changed = false;
    let mut index: usize = 0;
    let eq_flag = "--dns-result-order=";
    let flag = "--dns-result-order";
    let eq_len = eq_flag.unicode_len();
    while index < tokens.len()
        invariant
            toks == views(tokens@),
            toks == split_ws(raw@),
            eq_flag@ == flag_eq(),
            flag@ == flag_alone(),
            eq_len == flag_eq().len(),
            index <= tokens.len(),
            views(kept@) + sanitize_from(toks, index as int).0 == sanitize_from(toks, 0).0,
            (changed || sanitize_from(toks, index as int).1) == sanitize_from(toks, 0).1,
        decreases tokens.len() - index,
    {
        let token = tokens[index].as_str();
        assert(token@ == toks[index as int]);
        if starts_with(token, eq_flag) {
            let n = token.unicode_len();
            let order = token.substring_char(eq_len, n);
            if is_valid_dns_result_order(order) {
                let ghost before = views(kept@);
                kept.push(String::from_str(token));
                assert(views(kept@) =~= before + seq![toks[index as int]]);
                assert(views(kept@) + sanitize_from(toks, index + 1).0 =~= before + sanitize_from(
                    toks,
                    index as int,
                ).0);
            } else {
                changed = true;
            }
            index = index + 1;
        } else if str_eq(token, flag) {
            if index + 1 < tokens.len() && is_valid_dns_result_order(tokens[index + 1].as_str()) {
                let ghost before = views(kept@);
                kept.push(String::from_str(token));
                kept.push(tokens[index + 1].clone());
                assert(views(kept@) =~= before + seq![toks[index as int], toks[index + 1]]);
                assert(views(kept@) + sanitize_from(toks, index + 2).0 =~= before + sanitize_from(
                    toks,
                    index as int,
                ).0);
            } else {
                changed = true;
            }
            index = if index + 1 < tokens.len() {
                index + 2
            } else {
                tokens.len()
            };
        } else {
            let ghost before = views(kept@);
            kept.push(String::from_str(token));
            assert(views(kept@) =~= before + seq![toks[index as int]]);
            assert(views(kept@) + sanitize_from(toks, index + 1).0 =~= before + sanitize_from(
                toks,
                index as int,
            ).0);
            index = index + 1;
        }
    }
    assert(views(kept@) =~= views(kept@) + sanitize_from(toks, index as int).0);
    if !changed {
        return None;
    }
    Some(join(&kept, " "))
}

/// One environment override: a variable name and its value.
pub open spec fn pair_view(p: (String, String)) -> (Seq<char>, Seq<char>) {
    (p.0@, p.1@)
}

/// The overrides for an option variable named `key` whose inherited value is `value`.
pub open spec fn option_override(key: Seq<char>, value: Option<Seq<char>>) -> Seq<
    (Seq<char>, Seq<char>),
> {
    match value {
        Some(v) => match sanitize_spec(v) {
            Some(s) => seq![(key, s)],
            None => seq![],
        },
        None => seq![],
    }
}

/// The overrides for every child: the DNS order first, then each option variable whose
/// inherited value held an invalid DNS order flag, with that flag removed.
pub open spec fn overrides_spec(bun: Option<Seq<char>>, node: Option<Seq<char>>) -> Seq<
    (Seq<char>, Seq<char>),
> {
    seq![("BUN_CONFIG_DNS_RESULT_ORDER"@, "verbatim"@)] + option_override("BUN_OPTIONS"@, bun)
        + option_override("NODE_OPTIONS"@, node)
}

/// The environment overrides to apply to a child, given the inherited `BUN_OPTIONS` and
/// `NODE_OPTIONS` values (`None` when unset).
pub fn bun_env_overrides(bun_options: Option<&str>, node_options: Option<&str>) -> (r: Vec<
    (String, String),
>)
    ensures
        r@.map_values(|p: (String, String)| pair_view(p)) == overrides_spec(
            match bun_options {
                Some(v) => Some(v@),
                None => None,
            },
            match node_options {
                Some(v) => Some(v@),
                None => None,
            },
        ),
{
    let mut out: Vec<(String, String)> = Vec::new();
    out.push((String::from_str("BUN_CONFIG_DNS_RESULT_ORDER"), String::from_str(SAFE_DNS_RESULT_ORDER)));
    let ghost first = out@.map_values(|p: (String, String)| pair_view(p));
    if let Some(value) = bun_options {
        if let Some(sanitized) = sanitize_dns_result_order_args(value) {
            out.push((String::from_str("BUN_OPTIONS"), sanitized));
        }
    }
    let ghost second = out@.map_values(|p: (String, String)| pair_view(p));
    if let Some(value) = node_options {
        if let Some(sanitized) = sanitize_dns_result_order_args(value) {
            out.push((String::from_str("NODE_OPTIONS"), sanitized));
        }
    }
    let ghost bun = match bun_options {
        Some(v) => Some(v@),
        None => None,
    };
    let ghost node = match node_options {
        Some(v) => Some(v@),
        None => None,
    };
    assert(first =~= seq![("BUN_CONFIG_DNS_RESULT_ORDER"@, "verbatim"@)]);
    assert(second =~= first + option_override("BUN_OPTIONS"@, bun));
    assert(out@.map_values(|p: (String, String)| pair_view(p)) =~= second + option_override(
        "NODE_OPTIONS"@,
        node,
    ));
    out
}

} // verus!
