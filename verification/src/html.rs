//! The HTML that the public traceability pages show: escaping of untrusted text, the page
//! for an unknown code and the product picture.

use vstd::prelude::*;
use crate::text::{chars_of, replace_all, replace_chars, string_of};

verus! {

/// `text` with `&`, `<`, `>`, `"` and `'` written as HTML character references, `&` first.
pub open spec fn html_escaped(text: Seq<char>) -> Seq<char> {
    replace_all(
        replace_all(
            replace_all(
                replace_all(replace_all(text, "&"@, "&amp;"@), "<"@, "&lt;"@),
                ">"@,
                "&gt;"@,
            ),
            "\""@,
            "&quot;"@,
        ),
        "'"@,
        "&#x27;"@,
    )
}

/// `s` with every occurrence of `pat` replaced by `rep` (`str::replace`).
pub fn replace_str(s: &str, pat: &str, rep: &str) -> (r: String)
    requires
        pat@.len() > 0,
    ensures
        r@ == replace_all(s@, pat@, rep@),
{
    string_of(&replace_chars(&chars_of(s), &chars_of(pat), &chars_of(rep)))
}

/// `value` made safe to place in HTML text and attribute values.
pub fn escape_html(value: &str) -> (r: String)
    ensures
        r@ == html_escaped(value@),
{
    proof {
        reveal_strlit("&");
        reveal_strlit("<");
        reveal_strlit(">");
        reveal_strlit("\"");
        reveal_strlit("'");
    }
    let a = replace_str(value, "&", "&amp;");
    let b = replace_str(a.as_str(), "<", "&lt;");
    let c = replace_str(b.as_str(), ">", "&gt;");
    let d = replace_str(c.as_str(), "\"", "&quot;");
    replace_str(d.as_str(), "'", "&#x27;")
}

/// The start of the page shown for an unknown traceability code, up to the code.
pub const ERROR_PAGE_HEAD: &'static str = r#"
<!DOCTYPE html>
<html lang="fr">
<head>
    <meta charset="UTF-8">
    <meta name="viewport" content="width=device-width, initial-scale=1.0">
    <title>Code non trouvé - Code Terroir</title>
    <style>
        body { font-family: Arial, sans-serif; margin: 40px; background: #f8f9fa; color: #333; text-align: center; }
        .container { max-width: 500px; margin: 0 auto; background: white; padding: 40px; border-radius: 10px; box-shadow: 0 2px 10px rgba(0,0,0,0.1); }
        .error-icon { font-size: 64px; margin-bottom: 20px; }
        .error-title { color: #dc3545; font-size: 24px; font-weight: bold; margin-bottom: 15px; }
        .error-message { color: #6c757d; margin-bottom: 30px; }
        .code { background: #f8f9fa; padding: 10px; border-radius: 5px; font-family: monospace; font-weight: bold; }
    </style>
</head>
<body>
    <div class="container">
        <div class="error-icon">❌</div>
        <h1 class="error-title">Code non trouvé</h1>
        <p class="error-message">
            Le code de traçabilité que vous avez scanné n'existe pas ou n'est plus actif.
        </p>
        <div class="code">"#;

/// The end of the page shown for an unknown traceability code, after the code.
pub const ERROR_PAGE_TAIL: &'static str = r#"</div>
        <p style="margin-top: 30px; color: #6c757d; font-size: 14px;">
            Si vous pensez qu'il s'agit d'une erreur, contactez le producteur.
        </p>
    </div>
</body>
</html>
        "#;

/// The page shown for the unknown traceability code `slug`.
pub open spec fn error_page(slug: Seq<char>) -> Seq<char> {
    ERROR_PAGE_HEAD@ + html_escaped(slug) + ERROR_PAGE_TAIL@
}

/// The page shown when no batch answers the traceability code `slug`.
pub fn generate_error_html(slug: &str) -> (r: String)
    ensures
        r@ == error_page(slug@),
{
    let mut page = String::from_str(ERROR_PAGE_HEAD);
    page.append(escape_html(slug).as_str());
    page.append(ERROR_PAGE_TAIL);
    page
}

/// Whether `url` is an absolute HTTP or HTTPS address.
pub open spec fn is_web_address(url: Seq<char>) -> bool {
    url.take(8) == "https://"@ && url.len() >= 8 || url.take(7) == "http://"@ && url.len() >= 7
}

/// The markup of a product picture: the image at `image_url` when it is a web address,
/// a placeholder otherwise.
pub open spec fn product_image(image_url: Option<Seq<char>>, name: Seq<char>) -> Seq<char> {
    match image_url {
        Some(url) => if is_web_address(url) {
            "<img src=\""@ + html_escaped(url) + "\" alt=\""@ + html_escaped(name) + "\">"@
        } else {
            "<div class=\"producer-card\">Visuel produit non renseigné</div>"@
        },
        None => "<div class=\"producer-card\">Visuel produit non renseigné</div>"@,
    }
}

/// Whether `s` starts with `prefix`.
pub fn starts_with(s: &str, prefix: &str) -> (r: bool)
    ensures
        r == (s@.len() >= prefix@.len() && s@.take(prefix@.len() as int) == prefix@),
{
    let sv = chars_of(s);
    let pv = chars_of(prefix);
    if sv.len() < pv.len() {
        return false;
    }
    let mut i: usize = 0;
    while i < pv.len()
        invariant
            i <= pv.len() <= sv.len(),
            sv@ == s@,
            pv@ == prefix@,
            sv@.take(i as int) == pv@.take(i as int),
        decreases pv.len() - i,
    {
        if sv[i] != pv[i] {
            assert(sv@.take(pv.len() as int)[i as int] == sv@[i as int]);
            assert(sv@.take(pv.len() as int) != pv@);
            return false;
        }
        i = i + 1;
        assert(sv@.take(i as int) =~= pv@.take(i as int)) by {
            assert(sv@.take(i as int) =~= sv@.take(i - 1).push(sv@[i - 1]));
            assert(pv@.take(i as int) =~= pv@.take(i - 1).push(pv@[i - 1]));
        }
    }
    assert(pv@.take(pv.len() as int) =~= pv@);
    true
}

/// The markup of the picture of the product `name`.
pub fn product_image_markup(image_url: Option<&str>, name: &str) -> (r: String)
    ensures
        r@ == product_image(
            match image_url {
                Some(u) => Some(u@),
                None => None,
            },
            name@,
        ),
{
    proof {
        reveal_strlit("https://");
        reveal_strlit("http://");
    }
    match image_url {
        Some(url) => {
            if starts_with(url, "https://") || starts_with(url, "http://") {
                let mut m = String::from_str("<img src=\"");
                m.append(escape_html(url).as_str());
                m.append("\" alt=\"");
                m.append(escape_html(name).as_str());
                m.append("\">");
                m
            } else {
                String::from_str("<div class=\"producer-card\">Visuel produit non renseigné</div>")
            }
        },
        None => String::from_str("<div class=\"producer-card\">Visuel produit non renseigné</div>"),
    }
}


proof fn lemma_replace_keeps_absence(s: Seq<char>, pat: Seq<char>, rep: Seq<char>, x: char)
    requires
        pat.len() > 0,
        !s.contains(x),
        !rep.contains(x),
    ensures
        !replace_all(s, pat, rep).contains(x),
    decreases s.len(),
{
    if s.len() >= pat.len() {
        if s.take(pat.len() as int) == pat {
            let rest = s.skip(pat.len() as int);
            assert forall|i: int| 0 <= i < rest.len() implies rest[i] != x by {
                assert(rest[i] == s[i + pat.len()]);
            }
            lemma_replace_keeps_absence(rest, pat, rep, x);
            let out = replace_all(s, pat, rep);
            assert forall|i: int| 0 <= i < out.len() implies out[i] != x by {
                if i >= rep.len() {
                    assert(out[i] == replace_all(rest, pat, rep)[i - rep.len()]);
                }
            }
        } else {
            let rest = s.drop_first();
            assert forall|i: int| 0 <= i < rest.len() implies rest[i] != x by {
                assert(rest[i] == s[i + 1]);
            }
            lemma_replace_keeps_absence(rest, pat, rep, x);
            let out = replace_all(s, pat, rep);
            assert forall|i: int| 0 <= i < out.len() implies out[i] != x by {
                if i == 0 {
                    assert(s[0] != x);
                } else {
                    assert(out[i] == replace_all(rest, pat, rep)[i - 1]);
                }
            }
        }
    }
}

proof fn lemma_replace_removes(s: Seq<char>, c: char, rep: Seq<char>)
    requires
        !rep.contains(c),
    ensures
        !replace_all(s, seq![c], rep).contains(c),
    decreases s.len(),
{
    let pat = seq![c];
    if s.len() >= 1 {
        let out = replace_all(s, pat, rep);
        if s.take(1) == pat {
            let rest = s.skip(1);
            lemma_replace_removes(rest, c, rep);
            assert forall|i: int| 0 <= i < out.len() implies out[i] != c by {
                if i >= rep.len() {
                    assert(out[i] == replace_all(rest, pat, rep)[i - rep.len()]);
                }
            }
        } else {
            let rest = s.drop_first();
            assert(s[0] != c) by {
                if s[0] == c {
                    assert(s.take(1) =~= pat);
                }
            }
            lemma_replace_removes(rest, c, rep);
            assert forall|i: int| 0 <= i < out.len() implies out[i] != c by {
                if i > 0 {
                    assert(out[i] == replace_all(rest, pat, rep)[i - 1]);
                }
            }
        }
    }
}

proof fn lemma_replace_absent_is_identity(s: Seq<char>, c: char, rep: Seq<char>)
    requires
        !s.contains(c),
    ensures
        replace_all(s, seq![c], rep) == s,
    decreases s.len(),
{
    if s.len() >= 1 {
        let rest = s.drop_first();
        assert(s.take(1)[0] == s[0]);
        assert(s.take(1) != seq![c]);
        assert forall|i: int| 0 <= i < rest.len() implies rest[i] != c by {
            assert(rest[i] == s[i + 1]);
        }
        lemma_replace_absent_is_identity(rest, c, rep);
        assert(seq![s[0]] + rest =~= s);
    }
}

/// Escaped text holds no `<`, `>`, `"` or `'`: untrusted text cannot open a tag, close an
/// attribute value or start a new one.
pub proof fn law_escaped_text_holds_no_markup(text: Seq<char>)
    ensures
        !html_escaped(text).contains('<'),
        !html_escaped(text).contains('>'),
        !html_escaped(text).contains('"'),
        !html_escaped(text).contains('\''),
{
    reveal_strlit("&");
    reveal_strlit("<");
    reveal_strlit(">");
    reveal_strlit("\"");
    reveal_strlit("'");
    reveal_strlit("&amp;");
    reveal_strlit("&lt;");
    reveal_strlit("&gt;");
    reveal_strlit("&quot;");
    reveal_strlit("&#x27;");
    assert("<"@ =~= seq!['<']);
    assert(">"@ =~= seq!['>']);
    assert("\""@ =~= seq!['"']);
    assert("'"@ =~= seq!['\'']);
    let a = replace_all(text, "&"@, "&amp;"@);
    let b = replace_all(a, "<"@, "&lt;"@);
    let c = replace_all(b, ">"@, "&gt;"@);
    let d = replace_all(c, "\""@, "&quot;"@);
    let e = replace_all(d, "'"@, "&#x27;"@);
    lemma_replace_removes(a, '<', "&lt;"@);
    lemma_replace_keeps_absence(b, ">"@, "&gt;"@, '<');
    lemma_replace_keeps_absence(c, "\""@, "&quot;"@, '<');
    lemma_replace_keeps_absence(d, "'"@, "&#x27;"@, '<');
    lemma_replace_removes(b, '>', "&gt;"@);
    lemma_replace_keeps_absence(c, "\""@, "&quot;"@, '>');
    lemma_replace_keeps_absence(d, "'"@, "&#x27;"@, '>');
    lemma_replace_removes(c, '"', "&quot;"@);
    lemma_replace_keeps_absence(d, "'"@, "&#x27;"@, '"');
    lemma_replace_removes(d, '\'', "&#x27;"@);
}

/// Text without `&`, `<`, `>`, `"` and `'` is left as it is.
pub proof fn law_plain_text_is_not_escaped(text: Seq<char>)
    requires
        !text.contains('&'),
        !text.contains('<'),
        !text.contains('>'),
        !text.contains('"'),
        !text.contains('\''),
    ensures
        html_escaped(text) == text,
{
    reveal_strlit("&");
    reveal_strlit("<");
    reveal_strlit(">");
    reveal_strlit("\"");
    reveal_strlit("'");
    assert("&"@ =~= seq!['&']);
    assert("<"@ =~= seq!['<']);
    assert(">"@ =~= seq!['>']);
    assert("\""@ =~= seq!['"']);
    assert("'"@ =~= seq!['\'']);
    lemma_replace_absent_is_identity(text, '&', "&amp;"@);
    lemma_replace_absent_is_identity(text, '<', "&lt;"@);
    lemma_replace_absent_is_identity(text, '>', "&gt;"@);
    lemma_replace_absent_is_identity(text, '"', "&quot;"@);
    lemma_replace_absent_is_identity(text, '\'', "&#x27;"@);
}

/// What escaping writes for one character.
pub open spec fn escaped_char(c: char) -> Seq<char> {
    if c == '&' {
        "&amp;"@
    } else if c == '<' {
        "&lt;"@
    } else if c == '>' {
        "&gt;"@
    } else if c == '"' {
        "&quot;"@
    } else if c == '\'' {
        "&#x27;"@
    } else {
        seq![c]
    }
}

/// Whether `s` begins with `prefix`.
pub open spec fn begins_with(s: Seq<char>, prefix: Seq<char>) -> bool {
    s.len() >= prefix.len() && s.take(prefix.len() as int) == prefix
}

/// `text` with the character references that escaping writes (`&amp;`, `&lt;`, `&gt;`,
/// `&quot;`, `&#x27;`) read back as their characters, from left to right.
pub open spec fn html_unescaped(text: Seq<char>) -> Seq<char>
    decreases text.len(),
{
    if text.len() == 0 {
        text
    } else if begins_with(text, "&amp;"@) && "&amp;"@.len() > 0 {
        seq!['&'] + html_unescaped(text.skip("&amp;"@.len() as int))
    } else if begins_with(text, "&lt;"@) && "&lt;"@.len() > 0 {
        seq!['<'] + html_unescaped(text.skip("&lt;"@.len() as int))
    } else if begins_with(text, "&gt;"@) && "&gt;"@.len() > 0 {
        seq!['>'] + html_unescaped(text.skip("&gt;"@.len() as int))
    } else if begins_with(text, "&quot;"@) && "&quot;"@.len() > 0 {
        seq!['"'] + html_unescaped(text.skip("&quot;"@.len() as int))
    } else if begins_with(text, "&#x27;"@) && "&#x27;"@.len() > 0 {
        seq!['\''] + html_unescaped(text.skip("&#x27;"@.len() as int))
    } else {
        seq![text[0]] + html_unescaped(text.drop_first())
    }
}

/// Replacing a one-character pattern works character by character.
proof fn lemma_replace_char_step(s: Seq<char>, c: char, rep: Seq<char>)
    requires
        s.len() >= 1,
    ensures
        replace_all(s, seq![c], rep) == (if s[0] == c { rep } else { seq![s[0]] }) + replace_all(
            s.drop_first(),
            seq![c],
            rep,
        ),
{
    assert(s.take(1) =~= seq![s[0]]);
    assert(s.skip(1) =~= s.drop_first());
    if s[0] != c {
        assert(seq![s[0]] != seq![c]) by {
            assert(seq![s[0]][0] != seq![c][0]);
        }
    }
}

/// Replacing a one-character pattern in two joined texts replaces it in each.
proof fn lemma_replace_char_concat(s: Seq<char>, t: Seq<char>, c: char, rep: Seq<char>)
    ensures
        replace_all(s + t, seq![c], rep) == replace_all(s, seq![c], rep) + replace_all(t, seq![c], rep),
    decreases s.len(),
{
    if s.len() == 0 {
        assert(s + t =~= t);
        assert(replace_all(s, seq![c], rep) =~= Seq::<char>::empty());
        assert(Seq::<char>::empty() + replace_all(t, seq![c], rep) =~= replace_all(t, seq![c], rep));
    } else {
        let st = s + t;
        assert(st[0] == s[0]);
        assert(st.drop_first() =~= s.drop_first() + t);
        lemma_replace_char_step(st, c, rep);
        lemma_replace_char_step(s, c, rep);
        lemma_replace_char_concat(s.drop_first(), t, c, rep);
        let head = if s[0] == c { rep } else { seq![s[0]] };
        assert(head + (replace_all(s.drop_first(), seq![c], rep) + replace_all(t, seq![c], rep))
            =~= (head + replace_all(s.drop_first(), seq![c], rep)) + replace_all(t, seq![c], rep));
    }
}

/// The five replacements of escaping, applied to the text `s`.
spec fn escape_passes(s: Seq<char>) -> Seq<char> {
    replace_all(
        replace_all(
            replace_all(
                replace_all(replace_all(s, seq!['&'], "&amp;"@), seq!['<'], "&lt;"@),
                seq!['>'],
                "&gt;"@,
            ),
            seq!['"'],
            "&quot;"@,
        ),
        seq!['\''],
        "&#x27;"@,
    )
}

/// The five replacements of escaping act on a joined text part by part.
proof fn lemma_escape_passes_concat(s: Seq<char>, t: Seq<char>)
    ensures
        escape_passes(s + t) == escape_passes(s) + escape_passes(t),
{
    let a1 = replace_all(s, seq!['&'], "&amp;"@);
    let a2 = replace_all(t, seq!['&'], "&amp;"@);
    lemma_replace_char_concat(s, t, '&', "&amp;"@);
    let b1 = replace_all(a1, seq!['<'], "&lt;"@);
    let b2 = replace_all(a2, seq!['<'], "&lt;"@);
    lemma_replace_char_concat(a1, a2, '<', "&lt;"@);
    let c1 = replace_all(b1, seq!['>'], "&gt;"@);
    let c2 = replace_all(b2, seq!['>'], "&gt;"@);
    lemma_replace_char_concat(b1, b2, '>', "&gt;"@);
    let d1 = replace_all(c1, seq!['"'], "&quot;"@);
    let d2 = replace_all(c2, seq!['"'], "&quot;"@);
    lemma_replace_char_concat(c1, c2, '"', "&quot;"@);
    lemma_replace_char_concat(d1, d2, '\'', "&#x27;"@);
}

/// A text with none of `<`, `>`, `"`, `'` goes through the last four replacements unchanged.
proof fn lemma_passes_keep_plain(e: Seq<char>)
    requires
        !e.contains('<'),
        !e.contains('>'),
        !e.contains('"'),
        !e.contains('\''),
    ensures
        replace_all(
            replace_all(replace_all(replace_all(e, seq!['<'], "&lt;"@), seq!['>'], "&gt;"@), seq!['"'], "&quot;"@),
            seq!['\''],
            "&#x27;"@,
        ) == e,
{
    lemma_replace_absent_is_identity(e, '<', "&lt;"@);
    lemma_replace_absent_is_identity(e, '>', "&gt;"@);
    lemma_replace_absent_is_identity(e, '"', "&quot;"@);
    lemma_replace_absent_is_identity(e, '\'', "&#x27;"@);
}

/// The replacements of escaping write each character as `escaped_char` does.
proof fn lemma_escape_passes_char(c: char)
    ensures
        escape_passes(seq![c]) == escaped_char(c),
{
    reveal_strlit("&amp;");
    reveal_strlit("&lt;");
    reveal_strlit("&gt;");
    reveal_strlit("&quot;");
    reveal_strlit("&#x27;");
    let one = seq![c];
    assert(one.drop_first() =~= Seq::<char>::empty());
    let amp = "&amp;"@;
    let lt = "&lt;"@;
    let gt = "&gt;"@;
    let quot = "&quot;"@;
    let apos = "&#x27;"@;
    lemma_replace_char_step(one, '&', amp);
    let a = replace_all(one, seq!['&'], amp);
    assert(a == if c == '&' { amp } else { one }) by {
        assert((if c == '&' { amp } else { one }) + Seq::<char>::empty() =~= (if c == '&' { amp } else { one }));
    }
    if c == '&' {
        assert(amp =~= seq!['&', 'a', 'm', 'p', ';']);
        lemma_passes_keep_plain(amp);
    } else if c == '<' {
        lemma_replace_char_step(one, '<', lt);
        let b = replace_all(one, seq!['<'], lt);
        assert(b =~= lt);
        assert(lt =~= seq!['&', 'l', 't', ';']);
        lemma_replace_absent_is_identity(lt, '>', gt);
        lemma_replace_absent_is_identity(lt, '"', quot);
        lemma_replace_absent_is_identity(lt, '\'', apos);
    } else if c == '>' {
        lemma_replace_absent_is_identity(one, '<', lt);
        lemma_replace_char_step(one, '>', gt);
        assert(replace_all(one, seq!['>'], gt) =~= gt);
        assert(gt =~= seq!['&', 'g', 't', ';']);
        lemma_replace_absent_is_identity(gt, '"', quot);
        lemma_replace_absent_is_identity(gt, '\'', apos);
    } else if c == '"' {
        lemma_replace_absent_is_identity(one, '<', lt);
        lemma_replace_absent_is_identity(one, '>', gt);
        lemma_replace_char_step(one, '"', quot);
        assert(replace_all(one, seq!['"'], quot) =~= quot);
        assert(quot =~= seq!['&', 'q', 'u', 'o', 't', ';']);
        lemma_replace_absent_is_identity(quot, '\'', apos);
    } else if c == '\'' {
        lemma_replace_absent_is_identity(one, '<', lt);
        lemma_replace_absent_is_identity(one, '>', gt);
        lemma_replace_absent_is_identity(one, '"', quot);
        lemma_replace_char_step(one, '\'', apos);
        assert(replace_all(one, seq!['\''], apos) =~= apos);
    } else {
        lemma_passes_keep_plain(one);
    }
}

/// Escaping works character by character.
proof fn lemma_escape_by_char(text: Seq<char>)
    ensures
        escape_passes(text) == (if text.len() == 0 { text } else { escaped_char(text[0]) + escape_passes(text.drop_first()) }),
{
    if text.len() == 0 {
        lemma_replace_absent_is_identity(text, '&', "&amp;"@);
        lemma_passes_keep_plain(text);
    } else {
        assert(text =~= seq![text[0]] + text.drop_first());
        lemma_escape_passes_concat(seq![text[0]], text.drop_first());
        lemma_escape_passes_char(text[0]);
    }
}

/// Reading back what escaping writes for `c`, followed by `rest`, gives `c` followed by
/// `rest` read back.
proof fn lemma_unescape_char(c: char, rest: Seq<char>)
    ensures
        html_unescaped(escaped_char(c) + rest) == seq![c] + html_unescaped(rest),
{
    reveal_strlit("&amp;");
    reveal_strlit("&lt;");
    reveal_strlit("&gt;");
    reveal_strlit("&quot;");
    reveal_strlit("&#x27;");
    let amp = "&amp;"@;
    let lt = "&lt;"@;
    let gt = "&gt;"@;
    let quot = "&quot;"@;
    let apos = "&#x27;"@;
    assert(amp =~= seq!['&', 'a', 'm', 'p', ';']);
    assert(lt =~= seq!['&', 'l', 't', ';']);
    assert(gt =~= seq!['&', 'g', 't', ';']);
    assert(quot =~= seq!['&', 'q', 'u', 'o', 't', ';']);
    assert(apos =~= seq!['&', '#', 'x', '2', '7', ';']);
    let e = escaped_char(c);
    let t = e + rest;
    assert(t.len() > 0);
    if c == '&' {
        assert(t.take(5) =~= amp);
        assert(t.skip(5) =~= rest);
    } else if c == '<' {
        assert(!begins_with(t, amp)) by {
            if begins_with(t, amp) {
                assert(t.take(5)[1] == t[1]);
            }
        }
        assert(t.take(4) =~= lt);
        assert(t.skip(4) =~= rest);
    } else if c == '>' {
        assert(!begins_with(t, amp)) by {
            if begins_with(t, amp) {
                assert(t.take(5)[1] == t[1]);
            }
        }
        assert(!begins_with(t, lt)) by {
            if begins_with(t, lt) {
                assert(t.take(4)[1] == t[1]);
            }
        }
        assert(t.take(4) =~= gt);
        assert(t.skip(4) =~= rest);
    } else if c == '"' {
        assert(!begins_with(t, amp)) by {
            if begins_with(t, amp) {
                assert(t.take(5)[1] == t[1]);
            }
        }
        assert(!begins_with(t, lt)) by {
            if begins_with(t, lt) {
                assert(t.take(4)[1] == t[1]);
            }
        }
        assert(!begins_with(t, gt)) by {
            if begins_with(t, gt) {
                assert(t.take(4)[1] == t[1]);
            }
        }
        assert(t.take(6) =~= quot);
        assert(t.skip(6) =~= rest);
    } else if c == '\'' {
        assert(!begins_with(t, amp)) by {
            if begins_with(t, amp) {
                assert(t.take(5)[1] == t[1]);
            }
        }
        assert(!begins_with(t, lt)) by {
            if begins_with(t, lt) {
                assert(t.take(4)[1] == t[1]);
            }
        }
        assert(!begins_with(t, gt)) by {
            if begins_with(t, gt) {
                assert(t.take(4)[1] == t[1]);
            }
        }
        assert(!begins_with(t, quot)) by {
            if begins_with(t, quot) {
                assert(t.take(6)[1] == t[1]);
            }
        }
        assert(t.take(6) =~= apos);
        assert(t.skip(6) =~= rest);
    } else {
        assert(t[0] == c);
        assert(!begins_with(t, amp)) by {
            if begins_with(t, amp) {
                assert(t.take(5)[0] == t[0]);
            }
        }
        assert(!begins_with(t, lt)) by {
            if begins_with(t, lt) {
                assert(t.take(4)[0] == t[0]);
            }
        }
        assert(!begins_with(t, gt)) by {
            if begins_with(t, gt) {
                assert(t.take(4)[0] == t[0]);
            }
        }
        assert(!begins_with(t, quot)) by {
            if begins_with(t, quot) {
                assert(t.take(6)[0] == t[0]);
            }
        }
        assert(!begins_with(t, apos)) by {
            if begins_with(t, apos) {
                assert(t.take(6)[0] == t[0]);
            }
        }
        assert(t.drop_first() =~= rest);
    }
}

/// Reading back escaped text gives the text itself: escaping loses nothing, so `&lt;` typed
/// by a user is shown as `&lt;`, not as `<`.
pub proof fn law_unescaping_gives_the_text_back(text: Seq<char>)
    ensures
        html_unescaped(html_escaped(text)) == text,
    decreases text.len(),
{
    reveal_strlit("&");
    reveal_strlit("<");
    reveal_strlit(">");
    reveal_strlit("\"");
    reveal_strlit("'");
    assert("&"@ =~= seq!['&']);
    assert("<"@ =~= seq!['<']);
    assert(">"@ =~= seq!['>']);
    assert("\""@ =~= seq!['"']);
    assert("'"@ =~= seq!['\'']);
    assert(html_escaped(text) == escape_passes(text));
    lemma_escape_by_char(text);
    if text.len() > 0 {
        law_unescaping_gives_the_text_back(text.drop_first());
        assert(html_escaped(text.drop_first()) == escape_passes(text.drop_first()));
        lemma_unescape_char(text[0], escape_passes(text.drop_first()));
        assert(seq![text[0]] + text.drop_first() =~= text);
    }
}

/// `text` with the references that escaping writes replaced by their characters, one
/// reference after another over the whole text: first `&lt;`, `&gt;`, `&quot;` and
/// `&#x27;`, then `&amp;` last (as `str::replace` would do them in turn).
pub open spec fn html_unescaped_by_replacement(text: Seq<char>) -> Seq<char> {
    replace_all(
        replace_all(
            replace_all(
                replace_all(replace_all(text, "&lt;"@, "<"@), "&gt;"@, ">"@),
                "&quot;"@,
                "\""@,
            ),
            "&#x27;"@,
            "'"@,
        ),
        "&amp;"@,
        "&"@,
    )
}

/// The character reference that escaping writes for `c`, or `c` alone.
spec fn entity(c: char) -> Seq<char> {
    if c == '&' {
        seq!['&', 'a', 'm', 'p', ';']
    } else if c == '<' {
        seq!['&', 'l', 't', ';']
    } else if c == '>' {
        seq!['&', 'g', 't', ';']
    } else if c == '"' {
        seq!['&', 'q', 'u', 'o', 't', ';']
    } else if c == '\'' {
        seq!['&', '#', 'x', '2', '7', ';']
    } else {
        seq![c]
    }
}

/// The replacement pass, among the five of `html_unescaped_by_replacement`, that reads
/// back the reference of `c` (0 for a character that escaping keeps).
spec fn pass_of(c: char) -> int {
    if c == '<' {
        1
    } else if c == '>' {
        2
    } else if c == '"' {
        3
    } else if c == '\'' {
        4
    } else if c == '&' {
        5
    } else {
        0
    }
}

/// The pattern of replacement pass `k`.
spec fn pass_pattern(k: int) -> Seq<char> {
    if k == 1 {
        entity('<')
    } else if k == 2 {
        entity('>')
    } else if k == 3 {
        entity('"')
    } else if k == 4 {
        entity('\'')
    } else {
        entity('&')
    }
}

/// The character that replacement pass `k` writes.
spec fn pass_char(k: int) -> char {
    if k == 1 {
        '<'
    } else if k == 2 {
        '>'
    } else if k == 3 {
        '"'
    } else if k == 4 {
        '\''
    } else {
        '&'
    }
}

/// What stands for `c` after the first `k` replacement passes.
spec fn stage_token(k: int, c: char) -> Seq<char> {
    if 1 <= pass_of(c) <= k {
        seq![c]
    } else {
        entity(c)
    }
}

/// The text `t`, escaped and then read back by the first `k` replacement passes.
spec fn stage_text(k: int, t: Seq<char>) -> Seq<char>
    decreases t.len(),
{
    if t.len() == 0 {
        t
    } else {
        stage_token(k, t[0]) + stage_text(k, t.drop_first())
    }
}

/// A text without `&` goes through a replacement whose pattern starts with `&` unchanged,
/// and the replacement goes on after it.
proof fn lemma_replace_skips_plain(u: Seq<char>, rest: Seq<char>, pat: Seq<char>, rep: Seq<char>)
    requires
        pat.len() >= 1,
        pat[0] == '&',
        forall|i: int| 0 <= i < u.len() ==> u[i] != '&',
    ensures
        replace_all(u + rest, pat, rep) == u + replace_all(rest, pat, rep),
    decreases u.len(),
{
    if u.len() == 0 {
        assert(u + rest =~= rest);
    } else {
        let s = u + rest;
        if s.len() >= pat.len() {
            assert(s.take(pat.len() as int)[0] == u[0]);
            assert(s.take(pat.len() as int) != pat);
            let tail = u.drop_first();
            assert(s.drop_first() =~= tail + rest);
            lemma_replace_skips_plain(tail, rest, pat, rep);
            assert(seq![u[0]] + (tail + replace_all(rest, pat, rep)) =~= u + replace_all(rest, pat, rep));
        } else {
            assert(rest.len() < pat.len());
        }
    }
}

/// A replacement whose pattern starts with `&` reads a token followed by more text one
/// token at a time, when the token is the pattern, or holds `&` only first and cannot
/// start the pattern.
proof fn lemma_replace_token(tok: Seq<char>, rest: Seq<char>, pat: Seq<char>, rep: Seq<char>)
    requires
        tok.len() >= 1,
        pat.len() >= 2,
        pat[0] == '&',
        forall|i: int| 1 <= i < tok.len() ==> tok[i] != '&',
        tok == pat || tok[0] != '&' || (tok.len() >= 2 && tok[1] != pat[1]),
    ensures
        replace_all(tok + rest, pat, rep) == (if tok == pat { rep } else { tok }) + replace_all(rest, pat, rep),
{
    let s = tok + rest;
    if tok == pat {
        assert(s.take(pat.len() as int) =~= pat);
        assert(s.skip(pat.len() as int) =~= rest);
    } else if s.len() < pat.len() {
        assert(rest.len() < pat.len());
        assert(replace_all(rest, pat, rep) == rest);
    } else {
        assert(s.take(pat.len() as int) != pat) by {
            if tok[0] != '&' {
                assert(s.take(pat.len() as int)[0] == tok[0]);
            } else {
                assert(s.take(pat.len() as int)[1] == tok[1]);
            }
        }
        let tail = tok.drop_first();
        assert(s.drop_first() =~= tail + rest);
        lemma_replace_skips_plain(tail, rest, pat, rep);
        assert(seq![tok[0]] + (tail + replace_all(rest, pat, rep)) =~= tok + replace_all(rest, pat, rep));
    }
}

/// Each character's token meets what `lemma_replace_token` asks at pass `k`, and the pass
/// turns it into its token for the next stage.
proof fn lemma_stage_token(k: int, c: char)
    requires
        1 <= k <= 5,
    ensures
        stage_token(k - 1, c).len() >= 1,
        pass_pattern(k).len() >= 2,
        pass_pattern(k)[0] == '&',
        forall|i: int| 1 <= i < stage_token(k - 1, c).len() ==> #[trigger] stage_token(k - 1, c)[i] != '&',
        stage_token(k - 1, c) == pass_pattern(k) || stage_token(k - 1, c)[0] != '&' || (stage_token(
            k - 1,
            c,
        ).len() >= 2 && stage_token(k - 1, c)[1] != pass_pattern(k)[1]),
        (if stage_token(k - 1, c) == pass_pattern(k) { seq![pass_char(k)] } else { stage_token(k - 1, c) })
            == stage_token(k, c),
{
    let t = stage_token(k - 1, c);
    if 1 <= pass_of(c) < k {
        assert(t == seq![c]);
        assert(t != pass_pattern(k)) by {
            if c == '&' {
                assert(pass_of(c) == 5);
            }
            assert(t[0] != '&' || t.len() != pass_pattern(k).len());
        }
    } else if pass_of(c) == k {
        assert(t == pass_pattern(k));
        assert(pass_char(k) == c);
    } else {
        assert(t == entity(c));
        if pass_of(c) == 0 {
            assert(t == seq![c]);
            assert(c != '&');
        }
        assert(t != pass_pattern(k)) by {
            if pass_of(c) != 0 {
                assert(t[1] != pass_pattern(k)[1]);
            } else {
                assert(t.len() != pass_pattern(k).len());
            }
        }
    }
}

/// Replacement pass `k` turns the text read back by the first `k - 1` passes into the text
/// read back by the first `k`.
proof fn lemma_pass(k: int, t: Seq<char>)
    requires
        1 <= k <= 5,
    ensures
        replace_all(stage_text(k - 1, t), pass_pattern(k), seq![pass_char(k)]) == stage_text(k, t),
    decreases t.len(),
{
    lemma_stage_token(k, 'x');
    if t.len() == 0 {
        assert(replace_all(stage_text(k - 1, t), pass_pattern(k), seq![pass_char(k)]) == stage_text(k - 1, t));
    } else {
        lemma_pass(k, t.drop_first());
        lemma_stage_token(k, t[0]);
        lemma_replace_token(
            stage_token(k - 1, t[0]),
            stage_text(k - 1, t.drop_first()),
            pass_pattern(k),
            seq![pass_char(k)],
        );
    }
}

/// Before any pass, the staged text is the escaped text.
proof fn lemma_stage_zero(t: Seq<char>)
    ensures
        stage_text(0, t) == escape_passes(t),
    decreases t.len(),
{
    lemma_escape_by_char(t);
    if t.len() > 0 {
        lemma_stage_zero(t.drop_first());
        lemma_escaped_char_is_entity(t[0]);
    }
}

/// `escaped_char` writes the references that `entity` spells out.
proof fn lemma_escaped_char_is_entity(c: char)
    ensures
        escaped_char(c) == entity(c),
{
    reveal_strlit("&amp;");
    reveal_strlit("&lt;");
    reveal_strlit("&gt;");
    reveal_strlit("&quot;");
    reveal_strlit("&#x27;");
    assert("&amp;"@ =~= seq!['&', 'a', 'm', 'p', ';']);
    assert("&lt;"@ =~= seq!['&', 'l', 't', ';']);
    assert("&gt;"@ =~= seq!['&', 'g', 't', ';']);
    assert("&quot;"@ =~= seq!['&', 'q', 'u', 'o', 't', ';']);
    assert("&#x27;"@ =~= seq!['&', '#', 'x', '2', '7', ';']);
}

/// After the five passes, every character stands for itself.
proof fn lemma_stage_five(t: Seq<char>)
    ensures
        stage_text(5, t) == t,
    decreases t.len(),
{
    if t.len() > 0 {
        lemma_stage_five(t.drop_first());
        assert(stage_token(5, t[0]) == seq![t[0]]);
        assert(seq![t[0]] + t.drop_first() =~= t);
    }
}

/// Escaped text read back by replacing its references in turn, `&amp;` last, gives the
/// text itself: `&lt;` typed by a user comes back as `&lt;`, not as `<`.
pub proof fn law_replacing_the_references_gives_the_text_back(text: Seq<char>)
    ensures
        html_unescaped_by_replacement(html_escaped(text)) == text,
{
    reveal_strlit("&");
    reveal_strlit("<");
    reveal_strlit(">");
    reveal_strlit("\"");
    reveal_strlit("'");
    reveal_strlit("&amp;");
    reveal_strlit("&lt;");
    reveal_strlit("&gt;");
    reveal_strlit("&quot;");
    reveal_strlit("&#x27;");
    assert("&"@ =~= seq!['&']);
    assert("<"@ =~= seq!['<']);
    assert(">"@ =~= seq!['>']);
    assert("\""@ =~= seq!['"']);
    assert("'"@ =~= seq!['\'']);
    assert("&amp;"@ =~= pass_pattern(5));
    assert("&lt;"@ =~= pass_pattern(1));
    assert("&gt;"@ =~= pass_pattern(2));
    assert("&quot;"@ =~= pass_pattern(3));
    assert("&#x27;"@ =~= pass_pattern(4));
    assert(html_escaped(text) == escape_passes(text));
    lemma_stage_zero(text);
    lemma_pass(1, text);
    lemma_pass(2, text);
    lemma_pass(3, text);
    lemma_pass(4, text);
    lemma_pass(5, text);
    lemma_stage_five(text);
}

} // verus!
