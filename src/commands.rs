use vstd::prelude::*;
use vstd::string::*;

use crate::text::{
    decimal, decimal2, decimal_string, push_decimal, push_decimal2, replace_all, replaced,
};

verus! {

pub const KIB: u64 = 1024;

pub const MIB: u64 = 1048576;

pub const GIB: u64 = 1073741824;

/// `num / den` rounded to the nearest integer, ties to the even neighbour.
pub open spec fn round_half_even(num: nat, den: nat) -> nat
    recommends
        den > 0,
{
    let q = num / den;
    let r = num % den;
    if 2 * r > den {
        q + 1
    } else if 2 * r < den {
        q
    } else if q % 2 == 0 {
        q
    } else {
        q + 1
    }
}

/// A count of hundredths written with two decimals (`150` is `1.50`).
pub open spec fn fixed2(h: nat) -> Seq<char> {
    decimal(h / 100) + seq!['.'] + decimal2(h % 100)
}

/// `bytes / unit` with two decimals, followed by a space and the unit's name.
pub open spec fn scaled_text(bytes: nat, unit: nat, name: Seq<char>) -> Seq<char> {
    fixed2(round_half_even(bytes * 100, unit)) + seq![' '] + name
}

/// A byte count in binary units: the largest of GB, MB and KB that the value
/// reaches, with two decimals, or a plain count of bytes below one KB.
pub open spec fn bytes_text(bytes: nat) -> Seq<char> {
    if bytes >= GIB {
        scaled_text(bytes, GIB as nat, seq!['G', 'B'])
    } else if bytes >= MIB {
        scaled_text(bytes, MIB as nat, seq!['M', 'B'])
    } else if bytes >= KIB {
        scaled_text(bytes, KIB as nat, seq!['K', 'B'])
    } else {
        decimal(bytes) + seq![' ', 'B']
    }
}

/// Elapsed seconds as `H:MM:SS` from one hour on, else as `M:SS`.
pub open spec fn duration_text(secs: nat) -> Seq<char> {
    let h = secs / 3600;
    let m = (secs % 3600) / 60;
    let s = secs % 60;
    if h > 0 {
        decimal(h) + seq![':'] + decimal2(m) + seq![':'] + decimal2(s)
    } else {
        decimal(m) + seq![':'] + decimal2(s)
    }
}

/// The last two path components joined by `/`, the only one, or `.`.
pub open spec fn dir_label_text(components: Seq<Seq<char>>) -> Seq<char> {
    let n = components.len();
    if n >= 2 {
        components[n - 2] + seq!['/'] + components[n - 1]
    } else if n == 1 {
        components[0]
    } else {
        seq!['.']
    }
}

/// The exit hook's command line: `%d`, `%t`, `%s`, `%b` and `%m` replaced in
/// that order.
pub open spec fn exit_command_text(
    template: Seq<char>,
    secs: nat,
    bytes: nat,
    components: Seq<Seq<char>>,
) -> Seq<char> {
    let a = replaced(template, seq!['%', 'd'], dir_label_text(components));
    let b = replaced(a, seq!['%', 't'], duration_text(secs));
    let c = replaced(b, seq!['%', 's'], bytes_text(bytes));
    let d = replaced(c, seq!['%', 'b'], decimal(bytes));
    replaced(d, seq!['%', 'm'], decimal(bytes / (MIB as nat)))
}

/// The segment hook's command line: `{}` replaced by the file's path.
pub open spec fn segment_command_text(template: Seq<char>, path: Seq<char>) -> Seq<char> {
    replaced(template, seq!['{', '}'], path)
}

fn push_scaled(out: &mut String, bytes: u64, unit: u64, name: &str)
    requires
        unit >= 1024,
    ensures
        final(out)@ == old(out)@ + scaled_text(bytes as nat, unit as nat, name@),
{
    let num: u128 = (bytes as u128) * 100;
    let den: u128 = unit as u128;
    let q: u128 = num / den;
    let r: u128 = num % den;
    assert(q <= bytes as u128) by (nonlinear_arith)
        requires
            q == num / den,
            num == bytes * 100,
            den >= 1024,
    ;
    let h: u128 = if 2 * r > den {
        q + 1
    } else if 2 * r < den {
        q
    } else if q % 2 == 0 {
        q
    } else {
        q + 1
    };
    assert(h == round_half_even(bytes as nat * 100, unit as nat));
    let whole: u64 = (h / 100) as u64;
    let cents: u64 = (h % 100) as u64;
    push_decimal(out, whole);
    out.append(".");
    push_decimal2(out, cents);
    out.append(" ");
    out.append(name);
    proof {
        reveal_strlit(".");
        reveal_strlit(" ");
    }
    assert(final(out)@ =~= old(out)@ + scaled_text(bytes as nat, unit as nat, name@));
}

/// A human-readable size in binary units (`1572864` gives `1.50 MB`).
pub fn format_bytes(bytes: u64) -> (r: String)
    ensures
        r@ == bytes_text(bytes as nat),
{
    let mut out = String::new();
    proof {
        reveal_strlit("GB");
        reveal_strlit("MB");
        reveal_strlit("KB");
        reveal_strlit(" B");
    }
    if bytes >= GIB {
        push_scaled(&mut out, bytes, GIB, "GB");
    } else if bytes >= MIB {
        push_scaled(&mut out, bytes, MIB, "MB");
    } else if bytes >= KIB {
        push_scaled(&mut out, bytes, KIB, "KB");
    } else {
        push_decimal(&mut out, bytes);
        out.append(" B");
    }
    assert(out@ =~= bytes_text(bytes as nat));
    out
}

/// Elapsed seconds as `H:MM:SS`, or `M:SS` under an hour.
pub fn format_duration(secs: u64) -> (r: String)
    ensures
        r@ == duration_text(secs as nat),
{
    let h = secs / 3600;
    let m = (secs % 3600) / 60;
    let s = secs % 60;
    let mut out = String::new();
    proof {
        reveal_strlit(":");
    }
    if h > 0 {
        push_decimal(&mut out, h);
        out.append(":");
        push_decimal2(&mut out, m);
    } else {
        push_decimal(&mut out, m);
    }
    out.append(":");
    push_decimal2(&mut out, s);
    assert(out@ =~= duration_text(secs as nat));
    out
}

/// The last two of `components` joined by `/`, the only one, or `.` when
/// there is none.
pub fn dir_label(components: &Vec<String>) -> (r: String)
    ensures
        r@ == dir_label_text(components@.map_values(|c: String| c@)),
{
    let n = components.len();
    let ghost views = components@.map_values(|c: String| c@);
    proof {
        reveal_strlit("/");
        reveal_strlit(".");
    }
    if n >= 2 {
        let mut out = components[n - 2].clone();
        out.append("/");
        out.append(components[n - 1].as_str());
        assert(out@ =~= dir_label_text(views));
        out
    } else if n == 1 {
        components[0].clone()
    } else {
        String::from_str(".")
    }
}

/// The command line of the exit hook: in `template`, `%d` becomes the last two
/// components of the output directory, `%t` the elapsed time, `%s` the size in
/// binary units, `%b` the byte count and `%m` the whole mebibytes.
pub fn exit_command_line(
    template: &str,
    duration_secs: u64,
    total_bytes: u64,
    dir_components: &Vec<String>,
) -> (r: String)
    ensures
        r@ == exit_command_text(
            template@,
            duration_secs as nat,
            total_bytes as nat,
            dir_components@.map_values(|c: String| c@),
        ),
{
    proof {
        reveal_strlit("%d");
        reveal_strlit("%t");
        reveal_strlit("%s");
        reveal_strlit("%b");
        reveal_strlit("%m");
    }
    assert("%d"@ =~= seq!['%', 'd']);
    assert("%t"@ =~= seq!['%', 't']);
    assert("%s"@ =~= seq!['%', 's']);
    assert("%b"@ =~= seq!['%', 'b']);
    assert("%m"@ =~= seq!['%', 'm']);
    let dir = dir_label(dir_components);
    let a = replace_all(template, "%d", dir.as_str());
    let dur = format_duration(duration_secs);
    let b = replace_all(a.as_str(), "%t", dur.as_str());
    let size = format_bytes(total_bytes);
    let c = replace_all(b.as_str(), "%s", size.as_str());
    let raw = decimal_string(total_bytes);
    let d = replace_all(c.as_str(), "%b", raw.as_str());
    let mib = decimal_string(total_bytes / MIB);
    replace_all(d.as_str(), "%m", mib.as_str())
}

/// The command line of the per-file hook: `{}` in `template` becomes `path`.
pub fn segment_command_line(template: &str, path: &str) -> (r: String)
    ensures
        r@ == segment_command_text(template@, path@),
{
    proof {
        reveal_strlit("{}");
    }
    assert("{}"@ =~= seq!['{', '}']);
    replace_all(template, "{}", path)
}

} // verus!
