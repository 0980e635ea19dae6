//! Reading articles out of a PubMed `efetch` XML reply.
//!
//! This is a light reader, not an XML parser: it finds tags by their text.

use vstd::prelude::*;
use vstd::std_specs::iter::IteratorSpec;
use vstd::string::StrSliceExecFns;
use crate::medical::ResearchArticle;

verus! {

/// What `str::trim` makes of a string: the string without leading and
/// trailing whitespace.
pub uninterp spec fn trim_of(s: Seq<char>) -> Seq<char>;

/// Relies on `str::trim`: the result depends on the characters alone.
#[verifier::external_body]
pub(crate) fn trim_str(s: &str) -> (r: &str)
    ensures
        r@ == trim_of(s@),
{
    s.trim()
}

/// The first position at or after `i` where `needle` occurs in `h`.
pub open spec fn find_from(h: Seq<char>, needle: Seq<char>, i: int) -> Option<int>
    decreases h.len() - i,
{
    if i < 0 || i + needle.len() > h.len() {
        None
    } else if h.subrange(i, i + needle.len()) == needle {
        Some(i)
    } else if i >= h.len() {
        None
    } else {
        find_from(h, needle, i + 1)
    }
}

/// `s` with every `c` replaced by `with`.
pub open spec fn replace_char(s: Seq<char>, c: char, with: Seq<char>) -> Seq<char>
    decreases s.len(),
{
    if s.len() == 0 {
        s
    } else {
        let head = if s[0] == c { with } else { seq![s[0]] };
        head + replace_char(s.drop_first(), c, with)
    }
}

/// The opening text searched for `tag`: the tag itself where it holds a
/// `<`, else `<tag>`.
pub open spec fn start_tag(tag: Seq<char>) -> Seq<char> {
    if tag.contains('<') {
        tag
    } else {
        seq!['<'] + tag + seq!['>']
    }
}

/// The closing text searched for `tag`: the tag with `<` made `</` and a
/// space made `>` where it holds a `<`, else `</tag>`.
pub open spec fn end_tag(tag: Seq<char>) -> Seq<char> {
    if tag.contains('<') {
        replace_char(replace_char(tag, '<', seq!['<', '/']), ' ', seq!['>'])
    } else {
        seq!['<', '/'] + tag + seq!['>']
    }
}

/// The trimmed text between the first opening of `tag` in `xml` (up to the
/// first `>` from there) and the next closing of it; `None` where either is
/// missing.
pub open spec fn xml_value(xml: Seq<char>, tag: Seq<char>) -> Option<Seq<char>> {
    match find_from(xml, start_tag(tag), 0) {
        None => None,
        Some(start) => match find_from(xml, seq!['>'], start) {
            None => None,
            Some(gt) => match find_from(xml, end_tag(tag), gt + 1) {
                None => None,
                Some(end) => Some(trim_of(xml.subrange(gt + 1, end))),
            },
        },
    }
}

/// The characters of a string, one by one.
pub(crate) fn chars_of(s: &str) -> (r: Vec<char>)
    ensures
        r@ == s@,
{
    broadcast use vstd::string::axiom_spec_iter, vstd::string::next_postcondition;

    let mut it = s.chars();
    let mut r: Vec<char> = Vec::new();
    loop
        invariant
            r@ + it.remaining() == s@,
            it.obeys_prophetic_iter_laws(),
            it.decrease() is Some,
        ensures
            r@ == s@,
        decreases it.decrease()->0,
    {
        let ghost before = it.remaining();
        match it.next() {
            Some(c) => {
                r.push(c);
                assert(r@ + it.remaining() =~= s@) by {
                    assert(before == seq![c] + it.remaining());
                }
            },
            None => {
                assert(r@ =~= s@);
                break;
            },
        }
    }
    r
}

/// Where `needle` first occurs in `h` at or after position `from`.
pub(crate) fn find_chars(h: &Vec<char>, needle: &Vec<char>, from: usize) -> (r: Option<usize>)
    requires
        from <= h@.len(),
    ensures
        match r {
            Some(p) => find_from(h@, needle@, from as int) == Some(p as int) && from <= p && p
                + needle@.len() <= h@.len(),
            None => find_from(h@, needle@, from as int) is None,
        },
{
    let n = needle.len();
    let mut i = from;
    while i <= h.len() && n <= h.len() - i
        invariant
            from <= i,
            n == needle@.len(),
            find_from(h@, needle@, from as int) == find_from(h@, needle@, i as int),
        decreases h@.len() + 1 - i,
    {
        let mut j: usize = 0;
        let mut agree = true;
        while agree && j < n
            invariant
                i + n <= h@.len(),
                h@.len() == h.len(),
                n == needle@.len(),
                j <= n,
                h@.subrange(i as int, i + j) =~= needle@.subrange(0, j as int),
                !agree ==> j < n && h@[i + j] != needle@[j as int],
            decreases (n - j) as int + if agree { 1int } else { 0int },
        {
            if h[i + j] != needle[j] {
                agree = false;
            } else {
            proof {
                assert(h@.subrange(i as int, i + j + 1) =~= h@.subrange(i as int, i + j).push(h@[i + j]));
                assert(needle@.subrange(0, j + 1) =~= needle@.subrange(0, j as int).push(needle@[j as int]));
            }
            j = j + 1;
            }
        }
        if agree {
            assert(needle@.subrange(0, n as int) =~= needle@);
            return Some(i);
        }
        proof {
            assert(h@.subrange(i as int, i + n)[j as int] != needle@[j as int]);
        }
        i = i + 1;
    }
    None
}

/// The text of `xml` between the opening and the closing of `tag`, trimmed.
///
/// Where `tag` holds a `<` it is searched as written (`"<PMID"`), and its
/// closing is the tag with `<` made `</` and a space made `>`; otherwise the
/// search is for `<tag>` and `</tag>`. The value starts after the first `>`
/// that follows the opening.
pub fn extract_xml_value(xml: &str, tag: &str) -> (r: Option<String>)
    ensures
        match r {
            Some(v) => xml_value(xml@, tag@) == Some(v@),
            None => xml_value(xml@, tag@) is None,
        },
{
    let h = chars_of(xml);
    let t = chars_of(tag);
    let (open, close) = tags_of(&t);
    match find_chars(&h, &open, 0) {
        None => None,
        Some(start) => {
            let gt_text = chars_of(">");
            proof {
                reveal_strlit(">");
                assert(gt_text@ =~= seq!['>']);
            }
            match find_chars(&h, &gt_text, start) {
                None => None,
                Some(gt) => {
                    assert(gt + 1 <= h@.len());
                    assert(h@.len() == h.len());
                    match find_chars(&h, &close, gt + 1) {
                        None => None,
                        Some(end) => {
                            let content = xml.substring_char(gt + 1, end);
                            let v = trim_str(content).to_owned();
                            proof {
                                assert(find_from(xml@, start_tag(tag@), 0) == Some(start as int));
                                assert(find_from(xml@, seq!['>'], start as int) == Some(gt as int));
                                assert(find_from(xml@, end_tag(tag@), gt + 1) == Some(end as int));
                                assert(v@ == trim_of(xml@.subrange(gt + 1, end as int)));
                            }
                            Some(v)
                        },
                    }
                },
            }
        },
    }
}

/// The opening and closing texts searched for a tag.
fn tags_of(t: &Vec<char>) -> (r: (Vec<char>, Vec<char>))
    ensures
        r.0@ == start_tag(t@),
        r.1@ == end_tag(t@),
{
    let mut has_lt = false;
    let mut i: usize = 0;
    while i < t.len()
        invariant
            i <= t@.len(),
            has_lt == (exists|k: int| 0 <= k < i && t@[k] == '<'),
        decreases t@.len() - i,
    {
        if t[i] == '<' {
            has_lt = true;
        }
        i = i + 1;
    }
    assert(has_lt == t@.contains('<'));
    if has_lt {
        let mut open: Vec<char> = Vec::new();
        let mut close: Vec<char> = Vec::new();
        let mut k: usize = 0;
        while k < t.len()
            invariant
                k <= t@.len(),
                open@ == t@.subrange(0, k as int),
                close@ == replace_char(replace_char(t@.subrange(0, k as int), '<', seq!['<', '/']), ' ', seq!['>']),
            decreases t@.len() - k,
        {
            let c = t[k];
            open.push(c);
            if c == '<' {
                close.push('<');
                close.push('/');
            } else if c == ' ' {
                close.push('>');
            } else {
                close.push(c);
            }
            proof {
                lemma_replace_push(t@.subrange(0, k as int), c, '<', seq!['<', '/']);
                let once = replace_char(t@.subrange(0, k as int), '<', seq!['<', '/']);
                let tail = if c == '<' { seq!['<', '/'] } else { seq![c] };
                lemma_replace_append(once, tail, ' ', seq!['>']);
                if c == '<' {
                    assert(replace_char(tail, ' ', seq!['>']) =~= seq!['<', '/']) by {
                        reveal_with_fuel(replace_char, 3);
                    }
                } else {
                    assert(replace_char(tail, ' ', seq!['>']) =~= (if c == ' ' { seq!['>'] } else { seq![c] })) by {
                        reveal_with_fuel(replace_char, 2);
                    }
                }
                assert(t@.subrange(0, k + 1) =~= t@.subrange(0, k as int).push(c));
            }
            k = k + 1;
        }
        assert(t@.subrange(0, t@.len() as int) =~= t@);
        (open, close)
    } else {
        let mut open: Vec<char> = Vec::new();
        let mut close: Vec<char> = Vec::new();
        open.push('<');
        close.push('<');
        close.push('/');
        let mut k: usize = 0;
        while k < t.len()
            invariant
                k <= t@.len(),
                open@ == seq!['<'] + t@.subrange(0, k as int),
                close@ == seq!['<', '/'] + t@.subrange(0, k as int),
            decreases t@.len() - k,
        {
            open.push(t[k]);
            close.push(t[k]);
            proof {
                assert(t@.subrange(0, k + 1) =~= t@.subrange(0, k as int).push(t@[k as int]));
                assert(open@ =~= seq!['<'] + t@.subrange(0, k + 1));
                assert(close@ =~= seq!['<', '/'] + t@.subrange(0, k + 1));
            }
            k = k + 1;
        }
        open.push('>');
        close.push('>');
        assert(t@.subrange(0, t@.len() as int) =~= t@);
        assert(open@ =~= seq!['<'] + t@ + seq!['>']);
        assert(close@ =~= seq!['<', '/'] + t@ + seq!['>']);
        (open, close)
    }
}

/// Replacing in `s` followed by one more character.
proof fn lemma_replace_push(s: Seq<char>, c: char, from: char, with: Seq<char>)
    ensures
        replace_char(s.push(c), from, with) == replace_char(s, from, with) + (if c == from {
            with
        } else {
            seq![c]
        }),
    decreases s.len(),
{
    if s.len() == 0 {
        assert(s.push(c).drop_first() =~= Seq::<char>::empty());
        reveal_with_fuel(replace_char, 2);
        assert(replace_char(s.push(c), from, with) =~= (if c == from { with } else { seq![c] }));
    } else {
        assert(s.push(c).drop_first() =~= s.drop_first().push(c));
        lemma_replace_push(s.drop_first(), c, from, with);
        assert(replace_char(s.push(c), from, with) =~= replace_char(s, from, with) + (if c == from {
            with
        } else {
            seq![c]
        }));
    }
}

/// Replacing distributes over concatenation.
proof fn lemma_replace_append(a: Seq<char>, b: Seq<char>, from: char, with: Seq<char>)
    ensures
        replace_char(a + b, from, with) == replace_char(a, from, with) + replace_char(b, from, with),
    decreases a.len(),
{
    if a.len() == 0 {
        assert(a + b =~= b);
        assert(replace_char(a, from, with) =~= Seq::<char>::empty());
        assert(replace_char(a + b, from, with) =~= replace_char(a, from, with) + replace_char(b, from, with));
    } else {
        assert((a + b).drop_first() =~= a.drop_first() + b);
        lemma_replace_append(a.drop_first(), b, from, with);
        assert(replace_char(a + b, from, with) =~= replace_char(a, from, with) + replace_char(b, from, with));
    }
}

/// The text of a value, or nothing where there is none.
pub open spec fn or_empty(v: Option<Seq<char>>) -> Seq<char> {
    match v {
        Some(s) => s,
        None => Seq::empty(),
    }
}

/// What an article holds, as characters: its PMID, title, abstract and
/// journal.
pub type ArticleText = (Seq<char>, Seq<char>, Seq<char>, Seq<char>);

/// The article that a section of the reply describes, where the section has a
/// PMID; a missing title, abstract or journal reads as empty.
pub open spec fn article_of(section: Seq<char>) -> Option<ArticleText> {
    match xml_value(section, "<PMID"@) {
        None => None,
        Some(pmid) => Some(
            (
                pmid,
                or_empty(xml_value(section, "<ArticleTitle>"@)),
                or_empty(xml_value(section, "<AbstractText>"@)),
                or_empty(xml_value(section, "<Title>"@)),
            ),
        ),
    }
}

/// The articles of the sections from position `from` on, where a section
/// ends at the next `<PubmedArticle>` or at the end of the reply.
pub open spec fn articles_from(xml: Seq<char>, from: int) -> Seq<ArticleText>
    decreases xml.len() - from,
{
    let sep = "<PubmedArticle>"@;
    if from < 0 || from > xml.len() {
        Seq::empty()
    } else {
        match find_from(xml, sep, from) {
            None => match article_of(xml.subrange(from, xml.len() as int)) {
                Some(a) => seq![a],
                None => Seq::empty(),
            },
            Some(p) => {
                let here = match article_of(xml.subrange(from, p)) {
                    Some(a) => seq![a],
                    None => Seq::empty(),
                };
                if from < p + sep.len() <= xml.len() {
                    here + articles_from(xml, p + sep.len())
                } else {
                    here
                }
            },
        }
    }
}

/// The articles of a PubMed reply: one for each section after a
/// `<PubmedArticle>` that has a PMID, in order.
pub open spec fn pubmed_articles(xml: Seq<char>) -> Seq<ArticleText> {
    match find_from(xml, "<PubmedArticle>"@, 0) {
        None => Seq::empty(),
        Some(p) => articles_from(xml, p + "<PubmedArticle>"@.len()),
    }
}

/// An article as characters.
pub open spec fn article_text(a: ResearchArticle) -> ArticleText {
    (
        a.pmid@,
        a.title@,
        a.abstract_text@,
        match a.journal {
            Some(j) => j@,
            None => Seq::empty(),
        },
    )
}

/// The article that a section describes, where it has a PMID.
fn article_in(section: &str) -> (r: Option<ResearchArticle>)
    ensures
        match r {
            Some(a) => article_of(section@) == Some(article_text(a)) && a.journal is Some
                && a.authors is None && a.publication_date is None,
            None => article_of(section@) is None,
        },
{
    match extract_xml_value(section, "<PMID") {
        None => None,
        Some(pmid) => {
            let title = match extract_xml_value(section, "<ArticleTitle>") {
                Some(t) => t,
                None => String::new(),
            };
            let abstract_text = match extract_xml_value(section, "<AbstractText>") {
                Some(t) => t,
                None => String::new(),
            };
            let journal = match extract_xml_value(section, "<Title>") {
                Some(t) => t,
                None => String::new(),
            };
            Some(
                ResearchArticle {
                    pmid,
                    title,
                    abstract_text,
                    authors: None,
                    journal: Some(journal),
                    publication_date: None,
                },
            )
        },
    }
}

/// The articles of a PubMed `efetch` XML reply, in order: one for each
/// `<PubmedArticle>` section that has a PMID, with its title, abstract and
/// journal title (empty where missing); authors and date are not read.
pub fn parse_pubmed_xml(xml: &str) -> (r: Vec<ResearchArticle>)
    ensures
        r@.map_values(|a: ResearchArticle| article_text(a)) == pubmed_articles(xml@),
        forall|i: int|
            0 <= i < r@.len() ==> (#[trigger] r@[i]).journal is Some && r@[i].authors is None
                && r@[i].publication_date is None,
{
    let h = chars_of(xml);
    let sep = chars_of("<PubmedArticle>");
    proof {
        reveal_strlit("<PubmedArticle>");
    }
    let mut articles: Vec<ResearchArticle> = Vec::new();
    let mut from = match find_chars(&h, &sep, 0) {
        None => {
            assert(articles@.map_values(|a: ResearchArticle| article_text(a)) =~= Seq::<ArticleText>::empty());
            return articles;
        },
        Some(p) => {
            assert(h@.len() == h.len());
            p + sep.len()
        },
    };
    loop
        invariant_except_break
            articles@.map_values(|a: ResearchArticle| article_text(a)) + articles_from(h@, from as int)
                == pubmed_articles(h@),
        invariant
            h@ == xml@,
            sep@ == "<PubmedArticle>"@,
            sep@.len() > 0,
            from <= h@.len(),
            h@.len() == h.len(),
            forall|i: int|
                0 <= i < articles@.len() ==> (#[trigger] articles@[i]).journal is Some
                    && articles@[i].authors is None && articles@[i].publication_date is None,
        ensures
            articles@.map_values(|a: ResearchArticle| article_text(a)) == pubmed_articles(h@),
            forall|i: int|
                0 <= i < articles@.len() ==> (#[trigger] articles@[i]).journal is Some
                    && articles@[i].authors is None && articles@[i].publication_date is None,
        decreases h@.len() - from,
    {
        let next = find_chars(&h, &sep, from);
        let end = match next {
            Some(p) => p,
            None => h.len(),
        };
        let section = xml.substring_char(from, end);
        let ghost before = articles@;
        let found = article_in(section);
        let ghost here = match article_of(h@.subrange(from as int, end as int)) {
            Some(a) => seq![a],
            None => Seq::<ArticleText>::empty(),
        };
        match found {
            Some(a) => {
                articles.push(a);
            },
            None => {},
        }
        proof {
            assert(articles@.map_values(|a: ResearchArticle| article_text(a)) =~= before.map_values(
                |a: ResearchArticle| article_text(a),
            ) + here);
        }
        match next {
            None => {
                assert(articles_from(h@, from as int) == here);
                assert(articles@.map_values(|a: ResearchArticle| article_text(a)) =~= pubmed_articles(h@)) by {
                    assert(articles_from(h@, from as int) + Seq::<ArticleText>::empty() =~= articles_from(h@, from as int));
                }
                break;
            },
            Some(p) => {
                let ghost old_from = from;
                from = p + sep.len();
                assert(articles_from(h@, old_from as int) == here + articles_from(h@, from as int));
                let ghost bm = before.map_values(|a: ResearchArticle| article_text(a));
                let ghost am = articles@.map_values(|a: ResearchArticle| article_text(a));
                assert(bm + articles_from(h@, old_from as int) == pubmed_articles(h@));
                assert(am == bm + here);
                assert(bm + (here + articles_from(h@, from as int)) =~= (bm + here) + articles_from(h@, from as int));
                assert(am + articles_from(h@, from as int) == pubmed_articles(h@));
            },
        }
    }
    articles
}

} // verus!
