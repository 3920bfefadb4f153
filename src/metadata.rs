//! A document's metadata: named fields, each with an ordered list of values.

use vstd::prelude::*;
use vstd::string::StringExecFns;
use crate::text::{join_strings, join_with, strings_view};

verus! {

/// One metadata field and its values, in the order the document gives them.
#[derive(Debug)]
pub struct MetadataField {
    pub name: String,
    pub values: Vec<String>,
}

/// The plain value of a field: its name and the views of its values.
pub open spec fn field_view(f: MetadataField) -> (Seq<char>, Seq<Seq<char>>) {
    (f.name@, strings_view(f.values@))
}

/// The plain value of a list of fields.
pub open spec fn fields_view(fs: Seq<MetadataField>) -> Seq<(Seq<char>, Seq<Seq<char>>)> {
    fs.map_values(|f: MetadataField| field_view(f))
}

/// The index of the first field of `g` from index `j` on that is named `k`, or -1.
pub open spec fn field_index_from(g: Seq<(Seq<char>, Seq<Seq<char>>)>, k: Seq<char>, j: int) -> int
    decreases g.len() - j,
{
    if j < 0 || j >= g.len() {
        -1
    } else if g[j].0 == k {
        j
    } else {
        field_index_from(g, k, j + 1)
    }
}

proof fn lemma_field_index(g: Seq<(Seq<char>, Seq<Seq<char>>)>, k: Seq<char>, j: int)
    requires
        0 <= j,
    ensures
        field_index_from(g, k, j) >= 0 ==> j <= field_index_from(g, k, j) < g.len() && g[field_index_from(
            g,
            k,
            j,
        )].0 == k,
    decreases g.len() - j,
{
    if j < g.len() && g[j].0 != k {
        lemma_field_index(g, k, j + 1);
    }
}

/// The fields of a list of `(name, value)` items: one field per distinct name,
/// in the order of each name's first item, with the values in item order.
pub open spec fn grouped(items: Seq<(Seq<char>, Seq<char>)>) -> Seq<(Seq<char>, Seq<Seq<char>>)>
    decreases items.len(),
{
    if items.len() == 0 {
        Seq::empty()
    } else {
        let g = grouped(items.drop_last());
        let (k, v) = items.last();
        let j = field_index_from(g, k, 0);
        if j < 0 {
            g.push((k, seq![v]))
        } else {
            g.update(j, (k, g[j].1.push(v)))
        }
    }
}

/// The plain value of a list of `(name, value)` items.
pub open spec fn items_view(items: Seq<(String, String)>) -> Seq<(Seq<char>, Seq<char>)> {
    items.map_values(|p: (String, String)| (p.0@, p.1@))
}

/// The index of the first of `fields` named `name`, if any.
fn find_field(fields: &Vec<MetadataField>, name: &String) -> (r: Option<usize>)
    ensures
        match r {
            Some(j) => j < fields@.len() && field_index_from(fields_view(fields@), name@, 0) == j,
            None => field_index_from(fields_view(fields@), name@, 0) == -1,
        },
{
    let ghost g = fields_view(fields@);
    let mut j: usize = 0;
    while j < fields.len()
        invariant
            g == fields_view(fields@),
            j <= fields.len(),
            field_index_from(g, name@, 0) == field_index_from(g, name@, j as int),
        decreases fields.len() - j,
    {
        if fields[j].name == *name {
            return Some(j);
        }
        j = j + 1;
    }
    None
}

/// Gathers `(name, value)` items into fields: items of the same name become one
/// field with several values. Fields keep the order in which names first appear.
pub fn group_metadata(items: &Vec<(String, String)>) -> (r: Vec<MetadataField>)
    ensures
        fields_view(r@) == grouped(items_view(items@)),
{
    let ghost iv = items_view(items@);
    let mut out: Vec<MetadataField> = Vec::new();
    let mut i: usize = 0;
    while i < items.len()
        invariant
            i <= items.len(),
            iv == items_view(items@),
            fields_view(out@) == grouped(iv.subrange(0, i as int)),
        decreases items.len() - i,
    {
        proof {
            assert(iv.subrange(0, i + 1).drop_last() =~= iv.subrange(0, i as int));
        }
        let ghost g = fields_view(out@);
        let name = &items[i].0;
        let value = items[i].1.clone();
        let found = find_field(&out, name);
        match found {
            Some(j) => {
                proof {
                    lemma_field_index(g, name@, 0);
                }
                let ghost before = out@;
                let mut field = out.remove(j);
                let ghost vals = field.values@;
                field.values.push(value);
                out.insert(j, field);
                proof {
                    assert(strings_view(vals.push(value)) =~= strings_view(vals).push(value@));
                    assert(out@ =~= before.update(j as int, out@[j as int]));
                    assert(fields_view(out@) =~= g.update(j as int, (name@, g[j as int].1.push(value@))));
                }
            },
            None => {
                let ghost vv = value@;
                let field = MetadataField { name: name.clone(), values: vec![value] };
                proof {
                    assert(strings_view(field.values@) =~= seq![vv]);
                }
                out.push(field);
                proof {
                    assert(fields_view(out@) =~= g.push((name@, seq![vv])));
                }
            },
        }
        proof {
            let pre = iv.subrange(0, i + 1);
            assert(pre.last() == (name@, value@));
            assert(fields_view(out@) =~= grouped(pre));
        }
        i = i + 1;
    }
    proof {
        assert(iv.subrange(0, items.len() as int) =~= iv);
    }
    out
}

/// The line that closes each popup's text.
pub open spec fn close_hint() -> Seq<char> {
    "Press <C> to close pop-up!"@
}

/// One field as a line: `name: value1, value2, ...` and a line break.
pub open spec fn field_line(f: (Seq<char>, Seq<Seq<char>>)) -> Seq<char> {
    f.0 + ": "@ + join_with(f.1, ", "@) + "\n"@
}

/// The lines of the fields `fs`, one after another.
pub open spec fn field_lines(fs: Seq<(Seq<char>, Seq<Seq<char>>)>) -> Seq<char>
    decreases fs.len(),
{
    if fs.len() == 0 {
        Seq::empty()
    } else {
        field_lines(fs.drop_last()) + field_line(fs.last())
    }
}

/// The metadata popup's text for the fields `fs`.
pub open spec fn metadata_text(fs: Seq<(Seq<char>, Seq<Seq<char>>)>) -> Seq<char> {
    field_lines(fs) + "\n"@ + close_hint()
}

/// Formats the fields one per line (`name: value1, value2, ...`), followed by
/// an empty line and how to close the popup.
pub fn format_metadata(fields: &Vec<MetadataField>) -> (r: String)
    ensures
        r@ == metadata_text(fields_view(fields@)),
{
    let ghost fv = fields_view(fields@);
    let mut out = String::new();
    let mut i: usize = 0;
    while i < fields.len()
        invariant
            i <= fields.len(),
            fv == fields_view(fields@),
            out@ == field_lines(fv.subrange(0, i as int)),
        decreases fields.len() - i,
    {
        proof {
            assert(fv.subrange(0, i + 1).drop_last() =~= fv.subrange(0, i as int));
        }
        out.append(fields[i].name.as_str());
        out.append(": ");
        let values = join_strings(&fields[i].values, ", ");
        out.append(values.as_str());
        out.append("\n");
        i = i + 1;
    }
    proof {
        assert(fv.subrange(0, fields.len() as int) =~= fv);
    }
    out.append("\n");
    out.append("Press <C> to close pop-up!");
    out
}

} // verus!
