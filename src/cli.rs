//! Command-line options: the watched path, the preview port and where the
//! rendered output goes.
use vstd::prelude::*;

verus! {

/// The port served when none, or an unreadable one, is given.
pub const DEFAULT_PORT: u16 = 3000;

/// Options taken from the command line.
#[derive(Debug, PartialEq, Eq)]
pub struct Options {
    pub file_path: String,
    pub port: u16,
    pub pdf_path: String,
}

/// Why the command line was refused.
#[derive(Clone, Copy, Debug, PartialEq, Eq, Structural)]
pub enum ArgsError {
    /// No file path was given.
    MissingPath,
}

/// The value of a character `'0'..='9'`.
pub open spec fn digit_value(c: char) -> int {
    c as int - '0' as int
}

pub open spec fn is_digit(c: char) -> bool {
    '0' <= c && c <= '9'
}

/// The value of a run of decimal digits.
pub open spec fn digits_value(s: Seq<char>) -> int
    decreases s.len(),
{
    if s.len() == 0 {
        0
    } else {
        digits_value(s.drop_last()) * 10 + digit_value(s.last())
    }
}

/// Every character is a decimal digit.
pub open spec fn all_digits(s: Seq<char>) -> bool {
    forall|i: int| 0 <= i < s.len() ==> is_digit(#[trigger] s[i])
}

/// The text after an optional leading `+`.
pub open spec fn unsigned_digits(s: Seq<char>) -> Seq<char> {
    if s.len() > 0 && s[0] == '+' {
        s.drop_first()
    } else {
        s
    }
}

/// A port number written in decimal: an optional `+`, then one or more
/// digits whose value is at most 65535.
pub open spec fn port_value(s: Seq<char>) -> Option<u16> {
    let d = unsigned_digits(s);
    if d.len() > 0 && all_digits(d) && digits_value(d) <= 65535 {
        Some(digits_value(d) as u16)
    } else {
        None
    }
}

/// The port and output override found from position `i` on: `--port <n>`
/// sets the port (an unreadable number gives the default), `--pdf <path>`
/// sets the output; anything else, and a flag with no value after it, is
/// passed over.
pub open spec fn scan_flags(args: Seq<Seq<char>>, i: int, port: u16, pdf: Option<Seq<char>>) -> (u16, Option<Seq<char>>)
    decreases args.len() - i,
{
    if i < 0 || i >= args.len() {
        (port, pdf)
    } else if args[i] == "--port"@ && i + 1 < args.len() {
        let p = match port_value(args[i + 1]) {
            Some(n) => n,
            None => DEFAULT_PORT,
        };
        scan_flags(args, i + 2, p, pdf)
    } else if args[i] == "--pdf"@ && i + 1 < args.len() {
        scan_flags(args, i + 2, port, Some(args[i + 1]))
    } else {
        scan_flags(args, i + 1, port, pdf)
    }
}

/// The text held by an optional string.
pub open spec fn opt_view(o: &Option<String>) -> Option<Seq<char>> {
    match o {
        Some(s) => Some(s@),
        None => None,
    }
}

/// The output path used when none is given: the watched path with a final
/// `.html` replaced by `.pdf`, or with `.pdf` appended.
pub open spec fn default_pdf_path(path: Seq<char>) -> Seq<char> {
    if path.len() >= 5 && path.subrange(path.len() - 5, path.len() as int) == ".html"@ {
        path.subrange(0, path.len() - 5) + ".pdf"@
    } else {
        path + ".pdf"@
    }
}

proof fn lemma_digits_value_grows(s: Seq<char>, j: int)
    requires
        0 <= j <= s.len(),
        forall|i: int| 0 <= i < s.len() ==> is_digit(#[trigger] s[i]),
    ensures
        digits_value(s) >= digits_value(s.subrange(0, j)),
        digits_value(s.subrange(0, j)) >= 0,
    decreases s.len() - j,
{
    if j < s.len() {
        lemma_digits_value_grows(s, j + 1);
        let p = s.subrange(0, j + 1);
        assert(p.drop_last() =~= s.subrange(0, j));
        assert(is_digit(p.last()));
    } else {
        assert(s.subrange(0, j) =~= s);
        lemma_digits_value_nonneg(s);
    }
}

proof fn lemma_digits_value_nonneg(s: Seq<char>)
    requires
        forall|i: int| 0 <= i < s.len() ==> is_digit(#[trigger] s[i]),
    ensures
        digits_value(s) >= 0,
    decreases s.len(),
{
    if s.len() > 0 {
        let d = s.drop_last();
        assert forall|i: int| 0 <= i < d.len() implies is_digit(#[trigger] d[i]) by {
            assert(d[i] == s[i]);
        }
        lemma_digits_value_nonneg(d);
        assert(is_digit(s[s.len() - 1]));
    }
}

/// Reads a port number written in decimal, with an optional leading `+`.
pub fn parse_port(s: &str) -> (r: Option<u16>)
    ensures
        r == port_value(s@),
{
    let n = s.unicode_len();
    let mut start: usize = 0;
    if n > 0 && s.get_char(0) == '+' {
        start = 1;
    }
    let ghost d = unsigned_digits(s@);
    assert(d =~= s@.subrange(start as int, n as int));
    if start == n {
        return None;
    }
    let mut value: u32 = 0;
    let mut i: usize = start;
    while i < n
        invariant
            start <= i <= n,
            n == s@.len(),
            d =~= s@.subrange(start as int, n as int),
            d == unsigned_digits(s@),
            forall|k: int| 0 <= k < i - start ==> is_digit(#[trigger] d[k]),
            value as int == digits_value(d.subrange(0, i - start)),
            value <= 65535,
        decreases n - i,
    {
        let c = s.get_char(i);
        proof {
            assert(d[i - start] == c);
        }
        if c < '0' || c > '9' {
            proof {
                assert(!is_digit(d[i - start]));
                assert(!all_digits(d));
            }
            return None;
        }
        let next = value * 10 + (c as u32 - '0' as u32);
        proof {
            let p = d.subrange(0, i - start + 1);
            assert(p.drop_last() =~= d.subrange(0, i - start));
            assert(p.last() == c);
            assert(digits_value(p) == next);
        }
        if next > 65535 {
            proof {
                if all_digits(d) {
                    lemma_digits_value_grows(d, i - start + 1);
                    assert(digits_value(d) > 65535);
                }
            }
            return None;
        }
        value = next;
        i = i + 1;
    }
    assert(d.subrange(0, n - start) =~= d);
    Some(value as u16)
}

/// The output path used when none is given.
pub fn default_pdf(path: &str) -> (r: String)
    ensures
        r@ == default_pdf_path(path@),
{
    let n = path.unicode_len();
    let pdf = String::from_str(".pdf");
    if n >= 5 {
        let tail = String::from_str(path.substring_char(n - 5, n));
        let html = String::from_str(".html");
        if tail == html {
            let stem = String::from_str(path.substring_char(0, n - 5));
            return stem.concat(pdf.as_str());
        }
    }
    String::from_str(path).concat(pdf.as_str())
}

/// Reads the command line (the program name first, then the watched path,
/// then flags). Fails only when the path is missing.
pub fn parse_args(args: &Vec<String>) -> (r: Result<Options, ArgsError>)
    ensures
        args@.len() < 2 ==> r == Err::<Options, ArgsError>(ArgsError::MissingPath),
        args@.len() >= 2 ==> (r matches Ok(o) && ({
            let views = args@.map_values(|a: String| a@);
            let (port, pdf) = scan_flags(views, 2, DEFAULT_PORT, None);
            &&& o.file_path@ == args@[1]@
            &&& o.port == port
            &&& o.pdf_path@ == match pdf {
                Some(p) => p,
                None => default_pdf_path(args@[1]@),
            }
        })),
{
    if args.len() < 2 {
        return Err(ArgsError::MissingPath);
    }
    let ghost views = args@.map_values(|a: String| a@);
    let port_flag = String::from_str("--port");
    let pdf_flag = String::from_str("--pdf");
    let mut port: u16 = DEFAULT_PORT;
    let mut pdf: Option<String> = None;
    let mut i: usize = 2;
    while i < args.len()
        invariant
            2 <= i <= args@.len() + 1,
            views == args@.map_values(|a: String| a@),
            port_flag@ == "--port"@,
            pdf_flag@ == "--pdf"@,
            scan_flags(views, i as int, port, opt_view(&pdf))
                == scan_flags(views, 2, DEFAULT_PORT, None),
        decreases args@.len() + 1 - i,
    {
        assert(views[i as int] == args@[i as int]@);
        if args[i] == port_flag && i + 1 < args.len() {
            assert(views[i + 1] == args@[i + 1]@);
            port = match parse_port(args[i + 1].as_str()) {
                Some(n) => n,
                None => DEFAULT_PORT,
            };
            i = i + 2;
        } else if args[i] == pdf_flag && i + 1 < args.len() {
            assert(views[i + 1] == args@[i + 1]@);
            pdf = Some(args[i + 1].clone());
            i = i + 2;
        } else {
            i = i + 1;
        }
    }
    let file_path = args[1].clone();
    let pdf_path = match pdf {
        Some(p) => p,
        None => default_pdf(file_path.as_str()),
    };
    Ok(Options { file_path, port, pdf_path })
}

} // verus!
