//! Tag classification: membership tests over fixed tag tables, each kept in ascending order
//! and searched by halving.
use vstd::prelude::*;

verus! {

broadcast use vstd::string::group_string_axioms;

/// Tags of the typed document model (the root tag and every `mj-` element).
pub open spec fn typed_document_tags() -> Seq<Seq<char>> {
    seq![
        "mj-accordion"@, "mj-accordion-element"@, "mj-accordion-text"@, "mj-accordion-title"@,
        "mj-attributes"@, "mj-body"@, "mj-breakpoint"@, "mj-button"@, "mj-carousel"@,
        "mj-carousel-image"@, "mj-column"@, "mj-divider"@, "mj-font"@, "mj-group"@, "mj-head"@,
        "mj-hero"@, "mj-image"@, "mj-navbar"@, "mj-navbar-link"@, "mj-preview"@, "mj-raw"@,
        "mj-section"@, "mj-social"@, "mj-social-element"@, "mj-spacer"@, "mj-style"@,
        "mj-table"@, "mj-text"@, "mj-title"@, "mj-wrapper"@, "mjml"@,
    ]
}

/// Tags whose content collapses to one plain string.
pub open spec fn text_only_tags() -> Seq<Seq<char>> {
    seq!["mj-preview"@, "mj-style"@, "mj-title"@]
}

/// Tags whose attributes go through typed setters.
pub open spec fn typed_attribute_tags() -> Seq<Seq<char>> {
    seq![
        "mj-head"@, "mj-include"@, "mj-include-body"@, "mj-include-head"@, "mj-preview"@,
        "mj-raw"@, "mj-title"@,
    ]
}

/// Void elements: they never hold children.
pub open spec fn self_closing_tags() -> Seq<Seq<char>> {
    seq![
        "area"@, "base"@, "br"@, "col"@, "embed"@, "hr"@, "img"@, "input"@, "link"@, "meta"@,
        "param"@, "source"@, "track"@, "wbr"@,
    ]
}

/// The tag that opens a block of attribute definitions.
pub open spec fn attribute_definition_tag() -> Seq<char> {
    "mj-attributes"@
}

/// Character-wise equality of two strings.
pub fn same_text(a: &str, b: &str) -> (r: bool)
    ensures
        r == (a@ == b@),
{
    let n = a.unicode_len();
    if n != b.unicode_len() {
        return false;
    }
    let mut i: usize = 0;
    while i < n
        invariant
            n == a@.len(),
            n == b@.len(),
            i <= n,
            a@.subrange(0, i as int) == b@.subrange(0, i as int),
        decreases n - i,
    {
        if a.get_char(i) != b.get_char(i) {
            assert(a@[i as int] != b@[i as int]);
            return false;
        }
        assert(a@.subrange(0, i + 1) == a@.subrange(0, i as int).push(a@[i as int]));
        assert(b@.subrange(0, i + 1) == b@.subrange(0, i as int).push(b@[i as int]));
        i = i + 1;
    }
    assert(a@ == a@.subrange(0, n as int));
    assert(b@ == b@.subrange(0, n as int));
    true
}

/// Whether `tag` names an element of the typed document model.
pub fn is_mjml_element(tag: &str) -> (r: bool)
    ensures
        r == typed_document_tags().contains(tag@),
{
    let table: [&str; 31] = [
        "mj-accordion", "mj-accordion-element", "mj-accordion-text", "mj-accordion-title",
        "mj-attributes", "mj-body", "mj-breakpoint", "mj-button", "mj-carousel",
        "mj-carousel-image", "mj-column", "mj-divider", "mj-font", "mj-group", "mj-head",
        "mj-hero", "mj-image", "mj-navbar", "mj-navbar-link", "mj-preview", "mj-raw",
        "mj-section", "mj-social", "mj-social-element", "mj-spacer", "mj-style",
        "mj-table", "mj-text", "mj-title", "mj-wrapper", "mjml",
    ];
    assert(table@.map_values(|s: &str| s@) =~= typed_document_tags());
    proof {
        lemma_typed_document_tags_sorted();
    }
    in_sorted_table(tag, &table)
}

/// Whether the content of `tag` collapses to one plain string.
pub fn is_mjml_text_element(tag: &str) -> (r: bool)
    ensures
        r == text_only_tags().contains(tag@),
{
    let table: [&str; 3] = ["mj-preview", "mj-style", "mj-title"];
    assert(table@.map_values(|s: &str| s@) =~= text_only_tags());
    proof {
        lemma_text_only_tags_sorted();
    }
    in_sorted_table(tag, &table)
}

/// Whether the attributes of `tag` go through typed setters rather than a key/value bag.
pub fn is_mjml_not_free_attributes(tag: &str) -> (r: bool)
    ensures
        r == typed_attribute_tags().contains(tag@),
{
    let table: [&str; 7] = [
        "mj-head", "mj-include", "mj-include-body", "mj-include-head", "mj-preview", "mj-raw",
        "mj-title",
    ];
    assert(table@.map_values(|s: &str| s@) =~= typed_attribute_tags());
    proof {
        lemma_typed_attribute_tags_sorted();
    }
    in_sorted_table(tag, &table)
}

/// Whether `tag` is a void element, which may hold no children.
pub fn is_self_closing(tag: &str) -> (r: bool)
    ensures
        r == self_closing_tags().contains(tag@),
{
    let table: [&str; 14] = [
        "area", "base", "br", "col", "embed", "hr", "img", "input", "link", "meta", "param",
        "source", "track", "wbr",
    ];
    assert(table@.map_values(|s: &str| s@) =~= self_closing_tags());
    proof {
        lemma_self_closing_tags_sorted();
    }
    in_sorted_table(tag, &table)
}

/// Whether `tag` opens a block of attribute definitions.
pub fn is_attribute_definition_tag(tag: &str) -> (r: bool)
    ensures
        r == (tag@ == attribute_definition_tag()),
{
    same_text(tag, "mj-attributes")
}

/// No tag with typed attributes is a void element.
pub proof fn lemma_typed_attribute_tag_not_void(t: Seq<char>)
    requires
        typed_attribute_tags().contains(t),
    ensures
        !self_closing_tags().contains(t),
{
    reveal_strlit("area");
    reveal_strlit("base");
    reveal_strlit("br");
    reveal_strlit("col");
    reveal_strlit("embed");
    reveal_strlit("hr");
    reveal_strlit("img");
    reveal_strlit("input");
    reveal_strlit("link");
    reveal_strlit("meta");
    reveal_strlit("param");
    reveal_strlit("source");
    reveal_strlit("track");
    reveal_strlit("wbr");
    reveal_strlit("mj-head");
    reveal_strlit("mj-include");
    reveal_strlit("mj-include-body");
    reveal_strlit("mj-include-head");
    reveal_strlit("mj-preview");
    reveal_strlit("mj-raw");
    reveal_strlit("mj-title");
    let k = choose|k: int| 0 <= k < typed_attribute_tags().len() && typed_attribute_tags()[k] == t;
    assert(t.len() > 1 && t[1] == 'j');
    assert forall|j: int| 0 <= j < self_closing_tags().len() implies self_closing_tags()[j] != t by {
        assert(self_closing_tags()[j].len() > 1 && self_closing_tags()[j][1] != 'j');
    }
}

/// No void element is a tag of the typed document model.
pub proof fn lemma_void_tag_untyped(t: Seq<char>)
    requires
        self_closing_tags().contains(t),
    ensures
        !typed_document_tags().contains(t),
{
    reveal_strlit("area");
    reveal_strlit("base");
    reveal_strlit("br");
    reveal_strlit("col");
    reveal_strlit("embed");
    reveal_strlit("hr");
    reveal_strlit("img");
    reveal_strlit("input");
    reveal_strlit("link");
    reveal_strlit("meta");
    reveal_strlit("param");
    reveal_strlit("source");
    reveal_strlit("track");
    reveal_strlit("wbr");
    reveal_strlit("mj-accordion");
    reveal_strlit("mj-accordion-element");
    reveal_strlit("mj-accordion-text");
    reveal_strlit("mj-accordion-title");
    reveal_strlit("mj-attributes");
    reveal_strlit("mj-body");
    reveal_strlit("mj-breakpoint");
    reveal_strlit("mj-button");
    reveal_strlit("mj-carousel");
    reveal_strlit("mj-carousel-image");
    reveal_strlit("mj-column");
    reveal_strlit("mj-divider");
    reveal_strlit("mj-font");
    reveal_strlit("mj-group");
    reveal_strlit("mj-head");
    reveal_strlit("mj-hero");
    reveal_strlit("mj-image");
    reveal_strlit("mj-navbar");
    reveal_strlit("mj-navbar-link");
    reveal_strlit("mj-preview");
    reveal_strlit("mj-raw");
    reveal_strlit("mj-section");
    reveal_strlit("mj-social");
    reveal_strlit("mj-social-element");
    reveal_strlit("mj-spacer");
    reveal_strlit("mj-style");
    reveal_strlit("mj-table");
    reveal_strlit("mj-text");
    reveal_strlit("mj-title");
    reveal_strlit("mj-wrapper");
    reveal_strlit("mjml");
    let k = choose|k: int| 0 <= k < self_closing_tags().len() && self_closing_tags()[k] == t;
    assert(t.len() > 1 && t[1] != 'j');
    assert forall|j: int| 0 <= j < typed_document_tags().len() implies typed_document_tags()[j] != t by {
        assert(typed_document_tags()[j].len() > 1 && typed_document_tags()[j][1] == 'j');
    }
}

/// Strict lexicographic order on character sequences, by code point.
pub open spec fn text_lt(a: Seq<char>, b: Seq<char>) -> bool
    decreases a.len(),
{
    if a.len() == 0 {
        b.len() > 0
    } else if b.len() == 0 {
        false
    } else if a[0] != b[0] {
        (a[0] as u32) < (b[0] as u32)
    } else {
        text_lt(a.subrange(1, a.len() as int), b.subrange(1, b.len() as int))
    }
}

/// Each entry of the table comes strictly before the next.
pub open spec fn sorted(t: Seq<Seq<char>>) -> bool {
    forall|i: int| 0 <= i < t.len() - 1 ==> text_lt(#[trigger] t[i], t[i + 1])
}

/// No string comes before itself.
pub proof fn lemma_text_lt_irreflexive(a: Seq<char>)
    ensures
        !text_lt(a, a),
    decreases a.len(),
{
    if a.len() > 0 {
        lemma_text_lt_irreflexive(a.subrange(1, a.len() as int));
    }
}

/// The order is transitive.
pub proof fn lemma_text_lt_transitive(a: Seq<char>, b: Seq<char>, c: Seq<char>)
    requires
        text_lt(a, b),
        text_lt(b, c),
    ensures
        text_lt(a, c),
    decreases a.len(),
{
    if a.len() > 0 && b.len() > 0 && c.len() > 0 && a[0] == b[0] && b[0] == c[0] {
        lemma_text_lt_transitive(
            a.subrange(1, a.len() as int),
            b.subrange(1, b.len() as int),
            c.subrange(1, c.len() as int),
        );
    }
}

/// In a sorted table, every entry comes before every later one.
pub proof fn lemma_sorted_lt(t: Seq<Seq<char>>, i: int, j: int)
    requires
        sorted(t),
        0 <= i < j < t.len(),
    ensures
        text_lt(t[i], t[j]),
    decreases j - i,
{
    if j > i + 1 {
        lemma_sorted_lt(t, i, j - 1);
        lemma_text_lt_transitive(t[i], t[j - 1], t[j]);
    }
}

/// After a common prefix of length `k`, the order is that of what follows it.
proof fn lemma_text_lt_after_prefix(a: Seq<char>, b: Seq<char>, k: int)
    requires
        0 <= k <= a.len(),
        k <= b.len(),
        a.subrange(0, k) == b.subrange(0, k),
    ensures
        text_lt(a, b) == text_lt(a.subrange(k, a.len() as int), b.subrange(k, b.len() as int)),
    decreases k,
{
    if k == 0 {
        assert(a.subrange(0, a.len() as int) =~= a);
        assert(b.subrange(0, b.len() as int) =~= b);
    } else {
        assert(a[0] == a.subrange(0, k)[0]);
        assert(b[0] == b.subrange(0, k)[0]);
        let a1 = a.subrange(1, a.len() as int);
        let b1 = b.subrange(1, b.len() as int);
        assert(a1.subrange(0, k - 1) =~= a.subrange(0, k).subrange(1, k));
        assert(b1.subrange(0, k - 1) =~= b.subrange(0, k).subrange(1, k));
        lemma_text_lt_after_prefix(a1, b1, k - 1);
        assert(a1.subrange(k - 1, a1.len() as int) =~= a.subrange(k, a.len() as int));
        assert(b1.subrange(k - 1, b1.len() as int) =~= b.subrange(k, b.len() as int));
    }
}

/// Three-way comparison of two strings: negative, zero or positive as `a` comes before, is,
/// or comes after `b`.
pub fn compare_text(a: &str, b: &str) -> (r: i8)
    ensures
        (r == 0) == (a@ == b@),
        (r < 0) == text_lt(a@, b@),
        (r > 0) == text_lt(b@, a@),
{
    let la = a.unicode_len();
    let lb = b.unicode_len();
    let mut i: usize = 0;
    while i < la && i < lb
        invariant
            la == a@.len(),
            lb == b@.len(),
            i <= la,
            i <= lb,
            a@.subrange(0, i as int) == b@.subrange(0, i as int),
        decreases la - i,
    {
        let x = a.get_char(i);
        let y = b.get_char(i);
        if x != y {
            proof {
                lemma_text_lt_after_prefix(a@, b@, i as int);
                lemma_text_lt_after_prefix(b@, a@, i as int);
                assert(a@.subrange(i as int, la as int)[0] == x);
                assert(b@.subrange(i as int, lb as int)[0] == y);
            }
            if (x as u32) < (y as u32) {
                return -1;
            } else {
                return 1;
            }
        }
        assert(a@.subrange(0, i + 1) =~= a@.subrange(0, i as int).push(x));
        assert(b@.subrange(0, i + 1) =~= b@.subrange(0, i as int).push(y));
        i = i + 1;
    }
    proof {
        lemma_text_lt_after_prefix(a@, b@, i as int);
        lemma_text_lt_after_prefix(b@, a@, i as int);
        lemma_text_lt_irreflexive(a@);
        assert(a@.subrange(0, la as int) =~= a@);
        assert(b@.subrange(0, lb as int) =~= b@);
    }
    if la < lb {
        assert(a@.len() != b@.len());
        -1
    } else if la > lb {
        assert(a@.len() != b@.len());
        1
    } else {
        0
    }
}

/// Whether `tag` is one of the entries of a sorted table, by binary search.
fn in_sorted_table(tag: &str, table: &[&str]) -> (r: bool)
    requires
        sorted(table@.map_values(|s: &str| s@)),
    ensures
        r == table@.map_values(|s: &str| s@).contains(tag@),
{
    let ghost t = table@.map_values(|s: &str| s@);
    let mut lo: usize = 0;
    let mut hi: usize = table.len();
    while lo < hi
        invariant
            lo <= hi <= table@.len(),
            t == table@.map_values(|s: &str| s@),
            sorted(t),
            forall|j: int| 0 <= j < lo ==> t[j] != tag@,
            forall|j: int| hi <= j < t.len() ==> t[j] != tag@,
        decreases hi - lo,
    {
        let mid = lo + (hi - lo) / 2;
        let c = compare_text(tag, table[mid]);
        assert(t[mid as int] == table@[mid as int]@);
        if c == 0 {
            return true;
        } else if c < 0 {
            assert forall|j: int| mid <= j < t.len() implies t[j] != tag@ by {
                if j > mid {
                    lemma_sorted_lt(t, mid as int, j);
                    lemma_text_lt_transitive(tag@, t[mid as int], t[j]);
                }
                lemma_text_lt_irreflexive(tag@);
            }
            hi = mid;
        } else {
            assert forall|j: int| 0 <= j <= mid implies t[j] != tag@ by {
                if j < mid {
                    lemma_sorted_lt(t, j, mid as int);
                    lemma_text_lt_transitive(t[j], t[mid as int], tag@);
                }
                lemma_text_lt_irreflexive(tag@);
            }
            lo = mid + 1;
        }
    }
    false
}

/// The table `typed_document_tags` is in ascending order.
pub proof fn lemma_typed_document_tags_sorted()
    ensures
        sorted(typed_document_tags()),
{
    reveal_with_fuel(text_lt, 20);
    reveal_strlit("mj-accordion");
    reveal_strlit("mj-accordion-element");
    reveal_strlit("mj-accordion-text");
    reveal_strlit("mj-accordion-title");
    reveal_strlit("mj-attributes");
    reveal_strlit("mj-body");
    reveal_strlit("mj-breakpoint");
    reveal_strlit("mj-button");
    reveal_strlit("mj-carousel");
    reveal_strlit("mj-carousel-image");
    reveal_strlit("mj-column");
    reveal_strlit("mj-divider");
    reveal_strlit("mj-font");
    reveal_strlit("mj-group");
    reveal_strlit("mj-head");
    reveal_strlit("mj-hero");
    reveal_strlit("mj-image");
    reveal_strlit("mj-navbar");
    reveal_strlit("mj-navbar-link");
    reveal_strlit("mj-preview");
    reveal_strlit("mj-raw");
    reveal_strlit("mj-section");
    reveal_strlit("mj-social");
    reveal_strlit("mj-social-element");
    reveal_strlit("mj-spacer");
    reveal_strlit("mj-style");
    reveal_strlit("mj-table");
    reveal_strlit("mj-text");
    reveal_strlit("mj-title");
    reveal_strlit("mj-wrapper");
    reveal_strlit("mjml");
    assert(text_lt(typed_document_tags()[0], typed_document_tags()[1]));
    assert(text_lt(typed_document_tags()[1], typed_document_tags()[2]));
    assert(text_lt(typed_document_tags()[2], typed_document_tags()[3]));
    assert(text_lt(typed_document_tags()[3], typed_document_tags()[4]));
    assert(text_lt(typed_document_tags()[4], typed_document_tags()[5]));
    assert(text_lt(typed_document_tags()[5], typed_document_tags()[6]));
    assert(text_lt(typed_document_tags()[6], typed_document_tags()[7]));
    assert(text_lt(typed_document_tags()[7], typed_document_tags()[8]));
    assert(text_lt(typed_document_tags()[8], typed_document_tags()[9]));
    assert(text_lt(typed_document_tags()[9], typed_document_tags()[10]));
    assert(text_lt(typed_document_tags()[10], typed_document_tags()[11]));
    assert(text_lt(typed_document_tags()[11], typed_document_tags()[12]));
    assert(text_lt(typed_document_tags()[12], typed_document_tags()[13]));
    assert(text_lt(typed_document_tags()[13], typed_document_tags()[14]));
    assert(text_lt(typed_document_tags()[14], typed_document_tags()[15]));
    assert(text_lt(typed_document_tags()[15], typed_document_tags()[16]));
    assert(text_lt(typed_document_tags()[16], typed_document_tags()[17]));
    assert(text_lt(typed_document_tags()[17], typed_document_tags()[18]));
    assert(text_lt(typed_document_tags()[18], typed_document_tags()[19]));
    assert(text_lt(typed_document_tags()[19], typed_document_tags()[20]));
    assert(text_lt(typed_document_tags()[20], typed_document_tags()[21]));
    assert(text_lt(typed_document_tags()[21], typed_document_tags()[22]));
    assert(text_lt(typed_document_tags()[22], typed_document_tags()[23]));
    assert(text_lt(typed_document_tags()[23], typed_document_tags()[24]));
    assert(text_lt(typed_document_tags()[24], typed_document_tags()[25]));
    assert(text_lt(typed_document_tags()[25], typed_document_tags()[26]));
    assert(text_lt(typed_document_tags()[26], typed_document_tags()[27]));
    assert(text_lt(typed_document_tags()[27], typed_document_tags()[28]));
    assert(text_lt(typed_document_tags()[28], typed_document_tags()[29]));
    assert(text_lt(typed_document_tags()[29], typed_document_tags()[30]));
}

/// The table `text_only_tags` is in ascending order.
pub proof fn lemma_text_only_tags_sorted()
    ensures
        sorted(text_only_tags()),
{
    reveal_with_fuel(text_lt, 20);
    reveal_strlit("mj-preview");
    reveal_strlit("mj-style");
    reveal_strlit("mj-title");
    assert(text_lt(text_only_tags()[0], text_only_tags()[1]));
    assert(text_lt(text_only_tags()[1], text_only_tags()[2]));
}

/// The table `typed_attribute_tags` is in ascending order.
pub proof fn lemma_typed_attribute_tags_sorted()
    ensures
        sorted(typed_attribute_tags()),
{
    reveal_with_fuel(text_lt, 20);
    reveal_strlit("mj-head");
    reveal_strlit("mj-include");
    reveal_strlit("mj-include-body");
    reveal_strlit("mj-include-head");
    reveal_strlit("mj-preview");
    reveal_strlit("mj-raw");
    reveal_strlit("mj-title");
    assert(text_lt(typed_attribute_tags()[0], typed_attribute_tags()[1]));
    assert(text_lt(typed_attribute_tags()[1], typed_attribute_tags()[2]));
    assert(text_lt(typed_attribute_tags()[2], typed_attribute_tags()[3]));
    assert(text_lt(typed_attribute_tags()[3], typed_attribute_tags()[4]));
    assert(text_lt(typed_attribute_tags()[4], typed_attribute_tags()[5]));
    assert(text_lt(typed_attribute_tags()[5], typed_attribute_tags()[6]));
}

/// The table `self_closing_tags` is in ascending order.
pub proof fn lemma_self_closing_tags_sorted()
    ensures
        sorted(self_closing_tags()),
{
    reveal_with_fuel(text_lt, 20);
    reveal_strlit("area");
    reveal_strlit("base");
    reveal_strlit("br");
    reveal_strlit("col");
    reveal_strlit("embed");
    reveal_strlit("hr");
    reveal_strlit("img");
    reveal_strlit("input");
    reveal_strlit("link");
    reveal_strlit("meta");
    reveal_strlit("param");
    reveal_strlit("source");
    reveal_strlit("track");
    reveal_strlit("wbr");
    assert(text_lt(self_closing_tags()[0], self_closing_tags()[1]));
    assert(text_lt(self_closing_tags()[1], self_closing_tags()[2]));
    assert(text_lt(self_closing_tags()[2], self_closing_tags()[3]));
    assert(text_lt(self_closing_tags()[3], self_closing_tags()[4]));
    assert(text_lt(self_closing_tags()[4], self_closing_tags()[5]));
    assert(text_lt(self_closing_tags()[5], self_closing_tags()[6]));
    assert(text_lt(self_closing_tags()[6], self_closing_tags()[7]));
    assert(text_lt(self_closing_tags()[7], self_closing_tags()[8]));
    assert(text_lt(self_closing_tags()[8], self_closing_tags()[9]));
    assert(text_lt(self_closing_tags()[9], self_closing_tags()[10]));
    assert(text_lt(self_closing_tags()[10], self_closing_tags()[11]));
    assert(text_lt(self_closing_tags()[11], self_closing_tags()[12]));
    assert(text_lt(self_closing_tags()[12], self_closing_tags()[13]));
}

} // verus!
