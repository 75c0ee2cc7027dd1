use vstd::prelude::*;

use crate::roster::{bart_texture_paths, bart_texture_table, homer_texture_paths, homer_texture_table, pairs_view};

verus! {

/// `items` one after another, with `sep` between each two of them.
pub open spec fn join(items: Seq<Seq<char>>, sep: Seq<char>) -> Seq<char>
    decreases items.len(),
{
    if items.len() == 0 {
        seq![]
    } else if items.len() == 1 {
        items[0]
    } else {
        join(items.drop_last(), sep) + sep + items.last()
    }
}

/// The JSON object `{"key":"<key>","path":"<path>"}` of one texture entry,
/// with key and path written as they are.
pub open spec fn manifest_entry(entry: (Seq<char>, Seq<char>)) -> Seq<char> {
    "{\"key\":\""@ + entry.0 + "\",\"path\":\""@ + entry.1 + "\"}"@
}

/// The JSON array of the entries' objects, in order, separated by commas.
pub open spec fn manifest_json(entries: Seq<(Seq<char>, Seq<char>)>) -> Seq<char> {
    "["@ + join(entries.map_values(|e: (Seq<char>, Seq<char>)| manifest_entry(e)), ","@) + "]"@
}

/// The texture list `paths` as a JSON array of `{"key":..,"path":..}` objects.
pub fn texture_manifest(paths: &Vec<(String, String)>) -> (r: String)
    ensures
        r@ == manifest_json(pairs_view(paths@)),
{
    let ghost entries = pairs_view(paths@);
    let ghost objects = entries.map_values(|e: (Seq<char>, Seq<char>)| manifest_entry(e));
    let mut body = String::new();
    let n: usize = paths.len();
    let mut i: usize = 0;
    while i < n
        invariant
            n == paths@.len(),
            i <= n,
            entries == pairs_view(paths@),
            objects == entries.map_values(|e: (Seq<char>, Seq<char>)| manifest_entry(e)),
            body@ == join(objects.take(i as int), ","@),
        decreases n - i,
    {
        let ghost before = body@;
        if i > 0 {
            body.append(",");
        }
        body.append("{\"key\":\"");
        body.append(paths[i].0.as_str());
        body.append("\",\"path\":\"");
        body.append(paths[i].1.as_str());
        body.append("\"}");
        proof {
            let taken = objects.take(i + 1);
            assert(taken.drop_last() =~= objects.take(i as int));
            assert(taken.last() == objects[i as int]);
            assert(objects[i as int] == manifest_entry(entries[i as int]));
            if i == 0 {
                assert(taken.len() == 1);
                assert(body@ =~= taken[0]);
            } else {
                assert(body@ =~= before + ","@ + taken.last());
            }
        }
        i = i + 1;
    }
    proof {
        assert(objects.take(n as int) =~= objects);
    }
    let mut r = String::new();
    r.append("[");
    r.append(body.as_str());
    r.append("]");
    proof {
        assert(r@ =~= "["@ + body@ + "]"@);
    }
    r
}

/// Homer's texture list, as JSON.
pub fn homer_texture_manifest() -> (r: String)
    ensures
        r@ == manifest_json(homer_texture_table()),
{
    let paths = homer_texture_paths();
    texture_manifest(&paths)
}

/// Bart's texture list, as JSON.
pub fn bart_texture_manifest() -> (r: String)
    ensures
        r@ == manifest_json(bart_texture_table()),
{
    let paths = bart_texture_paths();
    texture_manifest(&paths)
}

/// The manifest of no entries is `[]`, that of one entry is its object in
/// brackets, and adding an entry to a non-empty list adds a comma and the
/// entry's object just before the closing bracket. So every two adjacent
/// objects are separated by exactly one comma.
pub proof fn lemma_manifest_shape(entries: Seq<(Seq<char>, Seq<char>)>, e: (Seq<char>, Seq<char>))
    ensures
        manifest_json(Seq::empty()) == "["@ + "]"@,
        manifest_json(seq![e]) == "["@ + manifest_entry(e) + "]"@,
        entries.len() > 0 ==> manifest_json(entries.push(e))
            == manifest_json(entries).drop_last() + ","@ + manifest_entry(e) + "]"@,
{
    let f = |x: (Seq<char>, Seq<char>)| manifest_entry(x);
    assert(Seq::<(Seq<char>, Seq<char>)>::empty().map_values(f) =~= Seq::<Seq<char>>::empty());
    assert(manifest_json(Seq::empty()) =~= "["@ + "]"@);
    assert(seq![e].map_values(f) =~= seq![manifest_entry(e)]);
    assert(manifest_json(seq![e]) =~= "["@ + manifest_entry(e) + "]"@);
    if entries.len() > 0 {
        let items = entries.push(e).map_values(f);
        assert(items.drop_last() =~= entries.map_values(f));
        assert(items.last() == manifest_entry(e));
        assert(items.len() >= 2);
        assert(join(items, ","@) == join(entries.map_values(f), ","@) + ","@ + manifest_entry(e));
        reveal_strlit("]");
        let m = manifest_json(entries);
        assert(m.drop_last() =~= "["@ + join(entries.map_values(f), ","@));
        assert(manifest_json(entries.push(e)) =~= m.drop_last() + ","@ + manifest_entry(e) + "]"@);
    }
}

/// Joining puts the separator between every two adjacent items: the join of
/// two or more items is the join of all but the last, the separator, and the
/// last item.
pub proof fn lemma_join_separates(items: Seq<Seq<char>>, sep: Seq<char>)
    requires
        items.len() >= 2,
    ensures
        join(items, sep) == join(items.drop_last(), sep) + sep + items.last(),
        join(seq![items[0], items[1]], sep) == items[0] + sep + items[1],
{
    let two = seq![items[0], items[1]];
    assert(two.drop_last() =~= seq![items[0]]);
    assert(join(two.drop_last(), sep) == items[0]);
}

} // verus!
