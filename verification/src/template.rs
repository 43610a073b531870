//! Single-pass `{field_name}` substitution.
//!
//! A placeholder is an opening brace, a name that holds no closing brace, and
//! a closing brace. The template is scanned once from left to right; a
//! placeholder whose name the field mapping knows is replaced by the field's
//! value (or by the sentinel when the field is absent from the event), and
//! everything else is copied as it stands. Replacement text is never scanned
//! again.

use vstd::prelude::*;
use crate::text::{chars_of, push_str_chars, same_chars, string_of};

verus! {

/// One entry of a field mapping: a placeholder name, and the value the event
/// carries for it (`None` when the event lacks the field).
#[derive(Clone, Debug, PartialEq, Eq)]
pub struct TemplateField {
    pub name: String,
    pub value: Option<String>,
}

/// The plain form of an entry: the name, and the value if the event has one.
pub type FieldEntry = (Seq<char>, Option<Seq<char>>);

/// A field mapping as a mathematical map: placeholder name to optional value.
pub type FieldMap = Map<Seq<char>, Option<Seq<char>>>;

/// The characters of an optional string.
pub open spec fn opt_text(o: Option<String>) -> Option<Seq<char>> {
    match o {
        Some(s) => Some(s@),
        None => None,
    }
}

impl View for TemplateField {
    type V = FieldEntry;

    open spec fn view(&self) -> FieldEntry {
        (self.name@, opt_text(self.value))
    }
}

/// The plain form of a list of entries.
pub open spec fn entries_of(fields: Seq<TemplateField>) -> Seq<FieldEntry> {
    fields.map_values(|f: TemplateField| f@)
}

/// The mapping that a list of entries stands for. Where a name occurs more
/// than once, the first entry decides.
pub open spec fn field_mapping(entries: Seq<FieldEntry>) -> FieldMap
    decreases entries.len(),
{
    if entries.len() == 0 {
        Map::empty()
    } else {
        field_mapping(entries.drop_first()).insert(entries[0].0, entries[0].1)
    }
}

/// What is written in place of a placeholder whose field is absent.
pub open spec fn sentinel() -> Seq<char> {
    seq!['u', 'n', 'k', 'n', 'o', 'w', 'n']
}

/// The text that replaces a placeholder of a known field.
pub open spec fn replacement(value: Option<Seq<char>>) -> Seq<char> {
    match value {
        Some(v) => v,
        None => sentinel(),
    }
}

/// How many characters stand at the start of `s` before its first closing
/// brace (all of them when it has none).
pub open spec fn name_len(s: Seq<char>) -> nat
    decreases s.len(),
{
    if s.len() == 0 || s[0] == '}' {
        0
    } else {
        1 + name_len(s.drop_first())
    }
}

/// The rendering of `template` under `fields`.
pub open spec fn render(template: Seq<char>, fields: FieldMap) -> Seq<char>
    decreases template.len(),
{
    if template.len() == 0 {
        Seq::empty()
    } else if template[0] == '{' {
        let k = name_len(template.drop_first()) as int;
        let name = template.subrange(1, 1 + k);
        if 1 + k < template.len() && fields.contains_key(name) {
            replacement(fields[name]) + render(
                template.subrange(k + 2, template.len() as int),
                fields,
            )
        } else {
            seq!['{'] + render(template.drop_first(), fields)
        }
    } else {
        seq![template[0]] + render(template.drop_first(), fields)
    }
}

/// A name without a closing brace, followed by one, is read back whole.
pub proof fn lemma_name_len_of_placeholder(name: Seq<char>, rest: Seq<char>)
    requires
        !name.contains('}'),
    ensures
        name_len(name + seq!['}'] + rest) == name.len(),
    decreases name.len(),
{
    let s = name + seq!['}'] + rest;
    if name.len() == 0 {
        assert(s[0] == '}');
    } else {
        assert(name.contains(name[0]));
        assert(s[0] == name[0]);
        let tail = name.drop_first();
        assert forall|c: char| tail.contains(c) implies name.contains(c) by {
            let i = choose|i: int| 0 <= i < tail.len() && tail[i] == c;
            assert(name[i + 1] == c);
        }
        lemma_name_len_of_placeholder(tail, rest);
        assert(s.drop_first() =~= tail + seq!['}'] + rest);
    }
}

/// Text without an opening brace in front of a template is copied as it
/// stands, and the rest is rendered as if it stood alone.
pub proof fn lemma_render_prefix(prefix: Seq<char>, rest: Seq<char>, fields: FieldMap)
    requires
        !prefix.contains('{'),
    ensures
        render(prefix + rest, fields) == prefix + render(rest, fields),
    decreases prefix.len(),
{
    if prefix.len() == 0 {
        assert(prefix + rest =~= rest);
        assert(prefix + render(rest, fields) =~= render(rest, fields));
    } else {
        let t = prefix + rest;
        assert(prefix.contains(prefix[0]));
        assert(t[0] == prefix[0]);
        let tail = prefix.drop_first();
        assert forall|c: char| tail.contains(c) implies prefix.contains(c) by {
            let i = choose|i: int| 0 <= i < tail.len() && tail[i] == c;
            assert(prefix[i + 1] == c);
        }
        lemma_render_prefix(tail, rest, fields);
        assert(t.drop_first() =~= tail + rest);
        assert(seq![prefix[0]] + (tail + render(rest, fields)) =~= prefix + render(rest, fields));
    }
}

/// A template that holds no opening brace renders to itself.
pub proof fn lemma_render_plain(template: Seq<char>, fields: FieldMap)
    requires
        !template.contains('{'),
    ensures
        render(template, fields) == template,
{
    lemma_render_prefix(template, Seq::empty(), fields);
    assert(template + Seq::<char>::empty() =~= template);
}

/// Every placeholder of a known field is replaced: by the field's value where
/// the event has one, by the sentinel where it has none. The replacement is
/// not scanned again, and rendering goes on behind the closing brace.
pub proof fn lemma_render_known(
    prefix: Seq<char>,
    name: Seq<char>,
    rest: Seq<char>,
    fields: FieldMap,
)
    requires
        !prefix.contains('{'),
        !name.contains('}'),
        fields.contains_key(name),
    ensures
        render(prefix + seq!['{'] + name + seq!['}'] + rest, fields) == prefix + replacement(
            fields[name],
        ) + render(rest, fields),
        fields[name] is None ==> render(prefix + seq!['{'] + name + seq!['}'] + rest, fields)
            == prefix + sentinel() + render(rest, fields),
{
    let body = seq!['{'] + name + seq!['}'] + rest;
    lemma_render_prefix(prefix, body, fields);
    assert(prefix + seq!['{'] + name + seq!['}'] + rest =~= prefix + body);
    lemma_name_len_of_placeholder(name, rest);
    assert(body.drop_first() =~= name + seq!['}'] + rest);
    let k = name_len(body.drop_first()) as int;
    assert(body.subrange(1, 1 + k) =~= name);
    assert(body.subrange(k + 2, body.len() as int) =~= rest);
    assert(prefix + (replacement(fields[name]) + render(rest, fields)) =~= prefix + replacement(
        fields[name],
    ) + render(rest, fields));
}

/// A placeholder whose name the mapping does not know is left verbatim.
pub proof fn lemma_render_unknown(
    prefix: Seq<char>,
    name: Seq<char>,
    rest: Seq<char>,
    fields: FieldMap,
)
    requires
        !prefix.contains('{'),
        !name.contains('{'),
        !name.contains('}'),
        !fields.contains_key(name),
    ensures
        render(prefix + seq!['{'] + name + seq!['}'] + rest, fields) == prefix + seq!['{'] + name
            + seq!['}'] + render(rest, fields),
{
    let body = seq!['{'] + name + seq!['}'] + rest;
    lemma_render_prefix(prefix, body, fields);
    assert(prefix + seq!['{'] + name + seq!['}'] + rest =~= prefix + body);
    lemma_name_len_of_placeholder(name, rest);
    assert(body.drop_first() =~= name + seq!['}'] + rest);
    let k = name_len(body.drop_first()) as int;
    assert(body.subrange(1, 1 + k) =~= name);
    // behind the opening brace: the name and the closing brace hold no opening brace
    let closed = name + seq!['}'];
    assert forall|c: char| closed.contains(c) implies c != '{' by {
        let i = choose|i: int| 0 <= i < closed.len() && closed[i] == c;
        if i < name.len() {
            assert(name.contains(name[i]));
        }
    }
    lemma_render_prefix(closed, rest, fields);
    assert(body.drop_first() =~= closed + rest);
    assert(prefix + (seq!['{'] + (closed + render(rest, fields))) =~= prefix + seq!['{'] + name
        + seq!['}'] + render(rest, fields));
}

/// Whether no name that the mapping knows holds an opening brace.
pub open spec fn brace_free_names(fields: FieldMap) -> bool {
    forall|name: Seq<char>| fields.contains_key(name) ==> !name.contains('{')
}

/// What follows a text does not change where its first closing brace
/// stands; a text without one hands the search on to what follows.
pub proof fn lemma_name_len_concat(x: Seq<char>, y: Seq<char>)
    ensures
        name_len(x) <= x.len(),
        name_len(x) < x.len() ==> name_len(x + y) == name_len(x),
        name_len(x) == x.len() ==> name_len(x + y) == x.len() + name_len(y),
    decreases x.len(),
{
    if x.len() == 0 {
        assert(x + y =~= y);
    } else if x[0] == '}' {
        assert((x + y)[0] == '}');
    } else {
        assert((x + y)[0] == x[0]);
        assert((x + y).drop_first() =~= x.drop_first() + y);
        lemma_name_len_concat(x.drop_first(), y);
    }
}

/// A template may be cut in front of any opening brace: where no known
/// name holds an opening brace, the two parts render on their own.
pub proof fn lemma_render_split(before: Seq<char>, after: Seq<char>, fields: FieldMap)
    requires
        brace_free_names(fields),
        after.len() == 0 || after[0] == '{',
    ensures
        render(before + after, fields) == render(before, fields) + render(after, fields),
    decreases before.len(),
{
    let whole = before + after;
    if after.len() == 0 {
        assert(whole =~= before);
        assert(render(before, fields) + render(after, fields) =~= render(before, fields));
    } else if before.len() == 0 {
        assert(whole =~= after);
        assert(render(before, fields) + render(after, fields) =~= render(after, fields));
    } else {
        let tail = before.drop_first();
        assert(whole[0] == before[0]);
        assert(whole.drop_first() =~= tail + after);
        if before[0] == '{' {
            lemma_name_len_concat(tail, after);
            let k = name_len(tail) as int;
            let kw = name_len(whole.drop_first()) as int;
            if k < tail.len() {
                // the closing brace stands in the first part
                assert(kw == k);
                let name = before.subrange(1, 1 + k);
                assert(whole.subrange(1, 1 + kw) =~= name);
                if fields.contains_key(name) {
                    let rest = before.subrange(k + 2, before.len() as int);
                    assert(whole.subrange(kw + 2, whole.len() as int) =~= rest + after);
                    lemma_render_split(rest, after, fields);
                    assert(replacement(fields[name]) + (render(rest, fields) + render(
                        after,
                        fields,
                    )) =~= replacement(fields[name]) + render(rest, fields) + render(
                        after,
                        fields,
                    ));
                } else {
                    lemma_render_split(tail, after, fields);
                    assert(seq!['{'] + (render(tail, fields) + render(after, fields)) =~= seq![
                        '{',
                    ] + render(tail, fields) + render(after, fields));
                }
            } else {
                // the first part holds no closing brace: the name would run on
                // into the second part and hold its opening brace
                assert(kw == tail.len() + name_len(after));
                assert(name_len(after) >= 1);
                lemma_name_len_concat(after, Seq::empty());
                assert(1 + kw <= whole.len());
                let name = whole.subrange(1, 1 + kw);
                assert(name[tail.len() as int] == whole[before.len() as int]);
                assert(name[tail.len() as int] == after[0]);
                assert(name.contains('{'));
                lemma_render_split(tail, after, fields);
                assert(seq!['{'] + (render(tail, fields) + render(after, fields)) =~= seq!['{']
                    + render(tail, fields) + render(after, fields));
            }
        } else {
            lemma_render_split(tail, after, fields);
            assert(seq![before[0]] + (render(tail, fields) + render(after, fields)) =~= seq![
                before[0],
            ] + render(tail, fields) + render(after, fields));
        }
    }
}

/// Every occurrence of a known placeholder, wherever it stands in a
/// template, is replaced: by the field's value where the event has one, by
/// the sentinel where it has none. What stands before it and behind it is
/// rendered on its own. This holds where no known name holds an opening
/// brace.
pub proof fn lemma_render_every_known(
    before: Seq<char>,
    name: Seq<char>,
    after: Seq<char>,
    fields: FieldMap,
)
    requires
        brace_free_names(fields),
        !name.contains('}'),
        fields.contains_key(name),
    ensures
        render(before + seq!['{'] + name + seq!['}'] + after, fields) == render(before, fields)
            + replacement(fields[name]) + render(after, fields),
        fields[name] is None ==> render(before + seq!['{'] + name + seq!['}'] + after, fields)
            == render(before, fields) + sentinel() + render(after, fields),
{
    let body = seq!['{'] + name + seq!['}'] + after;
    assert(body[0] == '{');
    lemma_render_split(before, body, fields);
    assert(before + seq!['{'] + name + seq!['}'] + after =~= before + body);
    lemma_render_known(Seq::empty(), name, after, fields);
    assert(Seq::<char>::empty() + seq!['{'] + name + seq!['}'] + after =~= body);
    assert(render(before, fields) + (Seq::<char>::empty() + replacement(fields[name]) + render(
        after,
        fields,
    )) =~= render(before, fields) + replacement(fields[name]) + render(after, fields));
}

/// Every occurrence of a placeholder whose name the mapping does not know,
/// wherever it stands in a template, is left verbatim. This holds where no
/// known name holds an opening brace.
pub proof fn lemma_render_every_unknown(
    before: Seq<char>,
    name: Seq<char>,
    after: Seq<char>,
    fields: FieldMap,
)
    requires
        brace_free_names(fields),
        !name.contains('{'),
        !name.contains('}'),
        !fields.contains_key(name),
    ensures
        render(before + seq!['{'] + name + seq!['}'] + after, fields) == render(before, fields)
            + seq!['{'] + name + seq!['}'] + render(after, fields),
{
    let body = seq!['{'] + name + seq!['}'] + after;
    assert(body[0] == '{');
    lemma_render_split(before, body, fields);
    assert(before + seq!['{'] + name + seq!['}'] + after =~= before + body);
    lemma_render_unknown(Seq::empty(), name, after, fields);
    assert(Seq::<char>::empty() + seq!['{'] + name + seq!['}'] + after =~= body);
    assert(render(before, fields) + (Seq::<char>::empty() + seq!['{'] + name + seq!['}']
        + render(after, fields)) =~= render(before, fields) + seq!['{'] + name + seq!['}']
        + render(after, fields));
}

/// Finds the entry that decides `name`, if the mapping knows the name.
pub fn lookup_field(fields: &Vec<TemplateField>, name: &Vec<char>) -> (r: Option<usize>)
    ensures
        r is None <==> !field_mapping(entries_of(fields@)).contains_key(name@),
        r matches Some(i) ==> i < fields.len() && fields[i as int].name@ == name@
            && field_mapping(entries_of(fields@))[name@] == opt_text(fields[i as int].value),
{
    let ghost entries = entries_of(fields@);
    let mut i: usize = 0;
    assert(entries.subrange(0, fields.len() as int) =~= entries);
    while i < fields.len()
        invariant
            i <= fields.len(),
            entries == entries_of(fields@),
            entries.len() == fields.len(),
            field_mapping(entries).contains_key(name@) == field_mapping(
                entries.subrange(i as int, fields.len() as int),
            ).contains_key(name@),
            field_mapping(entries).contains_key(name@) ==> field_mapping(entries)[name@]
                == field_mapping(entries.subrange(i as int, fields.len() as int))[name@],
        decreases fields.len() - i,
    {
        let ghost tail = entries.subrange(i as int, fields.len() as int);
        assert(tail.drop_first() =~= entries.subrange(i + 1, fields.len() as int));
        assert(tail[0] == fields@[i as int]@);
        let candidate = chars_of(fields[i].name.as_str());
        if same_chars(&candidate, name) {
            return Some(i);
        }
        i = i + 1;
    }
    assert(entries.subrange(fields.len() as int, fields.len() as int) =~= Seq::empty());
    None
}

/// Appends the sentinel to `out`.
fn push_sentinel(out: &mut Vec<char>)
    ensures
        final(out)@ == old(out)@ + sentinel(),
{
    out.push('u');
    out.push('n');
    out.push('k');
    out.push('n');
    out.push('o');
    out.push('w');
    out.push('n');
    assert(out@ =~= old(out)@ + sentinel());
}

/// Renders `template` under `fields`, both given as characters.
pub fn render_chars(template: &Vec<char>, fields: &Vec<TemplateField>) -> (out: Vec<char>)
    ensures
        out@ == render(template@, field_mapping(entries_of(fields@))),
{
    let ghost map = field_mapping(entries_of(fields@));
    let n = template.len();
    let mut out: Vec<char> = Vec::new();
    let mut i: usize = 0;
    proof {
        assert(template@.subrange(0, n as int) =~= template@);
        assert(out@ + render(template@, map) =~= render(template@, map));
    }
    while i < n
        invariant
            n == template.len(),
            i <= n,
            map == field_mapping(entries_of(fields@)),
            out@ + render(template@.subrange(i as int, n as int), map) == render(template@, map),
        decreases n - i,
    {
        let ghost here = template@.subrange(i as int, n as int);
        let ghost behind = template@.subrange(i + 1, n as int);
        assert(here.drop_first() =~= behind);
        assert(here[0] == template@[i as int]);
        let c = template[i];
        if c == '{' {
            // scan the name
            let mut j: usize = i + 1;
            let mut name: Vec<char> = Vec::new();
            while j < n && template[j] != '}'
                invariant
                    n == template.len(),
                    i < j <= n,
                    name@ == template@.subrange(i + 1, j as int),
                    name_len(behind) == (j - (i + 1)) + name_len(
                        template@.subrange(j as int, n as int),
                    ),
                    behind == template@.subrange(i + 1, n as int),
                decreases n - j,
            {
                let ghost at = template@.subrange(j as int, n as int);
                assert(at.drop_first() =~= template@.subrange(j + 1, n as int));
                assert(at[0] == template@[j as int]);
                name.push(template[j]);
                assert(name@ =~= template@.subrange(i + 1, j + 1));
                j = j + 1;
            }
            proof {
                let at = template@.subrange(j as int, n as int);
                if j < n {
                    assert(at[0] == template@[j as int]);
                }
                assert(name_len(at) == 0);
                assert(name_len(behind) == j - (i + 1));
                assert(here.subrange(1, 1 + name_len(behind) as int) =~= name@);
            }
            let found = if j < n {
                lookup_field(fields, &name)
            } else {
                None
            };
            match found {
                Some(k) => {
                    let ghost before = out@;
                    match &fields[k].value {
                        Some(v) => {
                            push_str_chars(&mut out, v.as_str());
                        },
                        None => {
                            push_sentinel(&mut out);
                        },
                    }
                    proof {
                        let k1 = name_len(behind) as int;
                        assert(here.subrange(k1 + 2, here.len() as int) =~= template@.subrange(
                            j + 1,
                            n as int,
                        ));
                        assert(out@ == before + replacement(map[name@]));
                        assert(before + replacement(map[name@]) + render(
                            template@.subrange(j + 1, n as int),
                            map,
                        ) =~= before + (replacement(map[name@]) + render(
                            template@.subrange(j + 1, n as int),
                            map,
                        )));
                    }
                    i = j + 1;
                },
                None => {
                    let ghost before = out@;
                    out.push(c);
                    proof {
                        assert(before.push(c) + render(behind, map) =~= before + (seq!['{']
                            + render(behind, map)));
                    }
                    i = i + 1;
                },
            }
        } else {
            let ghost before = out@;
            out.push(c);
            proof {
                assert(before.push(c) + render(behind, map) =~= before + (seq![c] + render(
                    behind,
                    map,
                )));
            }
            i = i + 1;
        }
    }
    proof {
        assert(template@.subrange(n as int, n as int) =~= Seq::empty());
        assert(out@ + Seq::<char>::empty() =~= out@);
    }
    out
}

/// Renders `template` under `fields`.
pub fn render_template(template: &str, fields: &Vec<TemplateField>) -> (r: String)
    ensures
        r@ == render(template@, field_mapping(entries_of(fields@))),
{
    let t = chars_of(template);
    let out = render_chars(&t, fields);
    string_of(&out)
}

} // verus!
