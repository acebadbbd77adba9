//! Path templates: text with positional `{}` placeholders, `{{` and `}}`
//! standing for literal braces.
use vstd::prelude::*;

verus! {

/// Prefixes `p` to a successful rendering, keeps a failure.
pub open spec fn prepend(p: Seq<char>, r: Option<Seq<char>>) -> Option<Seq<char>> {
    match r {
        Some(x) => Some(p + x),
        None => None,
    }
}

/// The views of a sequence of strings.
pub open spec fn strs(v: Seq<String>) -> Seq<Seq<char>> {
    v.map_values(|s: String| s@)
}

/// Whether the template starts with the two characters `a`, `b`.
pub open spec fn starts2(t: Seq<char>, a: char, b: char) -> bool {
    t.len() >= 2 && t[0] == a && t[1] == b
}

/// The text produced by filling the placeholders of `t`, in order, with
/// `args`; `None` when `t` is malformed (a lone brace or a brace that opens
/// something other than `{}`) or when the number of placeholders differs from
/// the number of arguments.
pub open spec fn render(t: Seq<char>, args: Seq<Seq<char>>) -> Option<Seq<char>>
    decreases t.len(),
{
    if t.len() == 0 {
        if args.len() == 0 { Some(Seq::empty()) } else { None }
    } else if starts2(t, '{', '{') {
        prepend(seq!['{'], render(t.skip(2), args))
    } else if starts2(t, '}', '}') {
        prepend(seq!['}'], render(t.skip(2), args))
    } else if starts2(t, '{', '}') {
        if args.len() == 0 { None } else { prepend(args[0], render(t.skip(2), args.skip(1))) }
    } else if t[0] == '{' || t[0] == '}' {
        None
    } else {
        prepend(seq![t[0]], render(t.skip(1), args))
    }
}

/// The number of `{}` placeholders of `t`, or `None` when `t` is malformed.
pub open spec fn placeholders(t: Seq<char>) -> Option<nat>
    decreases t.len(),
{
    if t.len() == 0 {
        Some(0)
    } else if starts2(t, '{', '{') || starts2(t, '}', '}') {
        placeholders(t.skip(2))
    } else if starts2(t, '{', '}') {
        match placeholders(t.skip(2)) {
            Some(n) => Some(n + 1),
            None => None,
        }
    } else if t[0] == '{' || t[0] == '}' {
        None
    } else {
        placeholders(t.skip(1))
    }
}

/// A template renders exactly when it is well formed and has one placeholder
/// per argument.
pub proof fn lemma_render_some_iff(t: Seq<char>, args: Seq<Seq<char>>)
    ensures
        render(t, args).is_some() <==> placeholders(t) == Some(args.len()),
    decreases t.len(),
{
    if t.len() == 0 {
    } else if starts2(t, '{', '{') || starts2(t, '}', '}') {
        lemma_render_some_iff(t.skip(2), args);
    } else if starts2(t, '{', '}') {
        if args.len() > 0 {
            lemma_render_some_iff(t.skip(2), args.skip(1));
        }
    } else if t[0] == '{' || t[0] == '}' {
    } else {
        lemma_render_some_iff(t.skip(1), args);
    }
}

proof fn lemma_prepend_assoc(a: Seq<char>, b: Seq<char>, r: Option<Seq<char>>)
    ensures
        prepend(a, prepend(b, r)) == prepend(a + b, r),
{
    if let Some(x) = r {
        assert(a + (b + x) =~= (a + b) + x);
    }
}

/// Fills the `{}` placeholders of `template` with `values`, in order.
/// Returns `None` when the template is malformed or its placeholders are not
/// exactly as many as the values.
pub fn format_path(template: &str, values: &Vec<String>) -> (r: Option<String>)
    ensures
        match r {
            Some(s) => render(template@, strs(values@)) == Some(s@),
            None => render(template@, strs(values@)).is_none(),
        },
{
    let ghost t = template@;
    let ghost args = strs(values@);
    let n = template.unicode_len();
    let mut out = String::new();
    let mut i: usize = 0;
    let mut k: usize = 0;
    proof {
        assert(t.skip(0) =~= t);
        assert(args.skip(0) =~= args);
        if let Some(x) = render(t, args) {
            assert(Seq::<char>::empty() + x =~= x);
        }
    }
    while i < n
        invariant
            t == template@,
            args == strs(values@),
            n == t.len(),
            i <= n,
            k <= values@.len(),
            render(t, args) == prepend(out@, render(t.skip(i as int), args.skip(k as int))),
        decreases n - i,
    {
        let ghost rest = t.skip(i as int);
        let c = template.get_char(i);
        let d = if i + 1 < n { template.get_char(i + 1) } else { ' ' };
        assert(i + 1 < n ==> rest[1] == d);
        if i + 1 < n && ((c == '{' && d == '{') || (c == '}' && d == '}')) {
            proof {
                assert(rest.skip(2) =~= t.skip(i + 2));
                assert(template@.subrange(i as int, i + 1) =~= seq![c]);
                lemma_prepend_assoc(out@, seq![c], render(rest.skip(2), args.skip(k as int)));
            }
            out.append(template.substring_char(i, i + 1));
            i = i + 2;
        } else if i + 1 < n && c == '{' && d == '}' {
            if k >= values.len() {
                return None;
            }
            proof {
                assert(rest.skip(2) =~= t.skip(i + 2));
                assert(args.skip(k as int).skip(1) =~= args.skip(k + 1));
                lemma_prepend_assoc(out@, values@[k as int]@, render(rest.skip(2), args.skip(k + 1)));
            }
            out.append(values[k].as_str());
            i = i + 2;
            k = k + 1;
        } else if c == '{' || c == '}' {
            return None;
        } else {
            proof {
                assert(rest.skip(1) =~= t.skip(i + 1));
                assert(template@.subrange(i as int, i + 1) =~= seq![c]);
                lemma_prepend_assoc(out@, seq![c], render(rest.skip(1), args.skip(k as int)));
            }
            out.append(template.substring_char(i, i + 1));
            i = i + 1;
        }
    }
    assert(t.skip(i as int).len() == 0);
    if k < values.len() {
        None
    } else {
        assert(out@ + Seq::<char>::empty() =~= out@);
        Some(out)
    }
}

/// Adds `c` to a count, keeps a failure.
pub open spec fn add_count(c: nat, r: Option<nat>) -> Option<nat> {
    match r {
        Some(n) => Some(n + c),
        None => None,
    }
}

/// Counts the `{}` placeholders of `template`; `None` when it is malformed.
pub fn placeholder_count(template: &str) -> (r: Option<usize>)
    ensures
        match r {
            Some(c) => placeholders(template@) == Some(c as nat),
            None => placeholders(template@).is_none(),
        },
{
    let ghost t = template@;
    let n = template.unicode_len();
    let mut count: usize = 0;
    let mut i: usize = 0;
    assert(t.skip(0) =~= t);
    while i < n
        invariant
            t == template@,
            n == t.len(),
            i <= n,
            count <= i,
            placeholders(t) == add_count(count as nat, placeholders(t.skip(i as int))),
        decreases n - i,
    {
        let ghost rest = t.skip(i as int);
        let c = template.get_char(i);
        let d = if i + 1 < n { template.get_char(i + 1) } else { ' ' };
        assert(i + 1 < n ==> rest[1] == d);
        if i + 1 < n && ((c == '{' && d == '{') || (c == '}' && d == '}')) {
            assert(rest.skip(2) =~= t.skip(i + 2));
            i = i + 2;
        } else if i + 1 < n && c == '{' && d == '}' {
            assert(rest.skip(2) =~= t.skip(i + 2));
            i = i + 2;
            count = count + 1;
        } else if c == '{' || c == '}' {
            return None;
        } else {
            assert(rest.skip(1) =~= t.skip(i + 1));
            i = i + 1;
        }
    }
    assert(t.skip(i as int).len() == 0);
    Some(count)
}

/// The full address of a call: the base address followed by the rendered
/// path, joined as they are, without escaping.
pub open spec fn url_of(base: Seq<char>, t: Seq<char>, args: Seq<Seq<char>>) -> Option<Seq<char>> {
    prepend(base, render(t, args))
}

/// Builds the address of a call: `base_url` followed by `template` with its
/// placeholders filled by `values`. `None` exactly when the template does not
/// render with these values.
pub fn request_url(base_url: &str, template: &str, values: &Vec<String>) -> (r: Option<String>)
    ensures
        match r {
            Some(s) => url_of(base_url@, template@, strs(values@)) == Some(s@),
            None => url_of(base_url@, template@, strs(values@)).is_none(),
        },
{
    match format_path(template, values) {
        Some(path) => {
            let url = base_url.to_owned().concat(path.as_str());
            Some(url)
        },
        None => None,
    }
}

} // verus!
