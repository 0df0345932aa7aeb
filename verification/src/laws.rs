//! Laws of the store, proved over its mathematical model.

use vstd::prelude::*;
use vstd::multiset::Multiset;
use crate::FileRecord;

verus! {

broadcast use vstd::seq_lib::group_to_multiset_ensures;

/// Whether some identifier in `m` carries the name `name`.
pub open spec fn map_has_name(m: Map<int, Seq<char>>, name: Seq<char>) -> bool {
    exists|i: int| m.dom().contains(i) && m[i] == name
}

/// Whether some file row in `m` carries the filename `name`.
pub open spec fn file_map_has_name(m: Map<int, FileRecord>, name: Seq<char>) -> bool {
    exists|i: int| m.dom().contains(i) && m[i].name == name
}

/// A filename that was not yet inserted resolves to nothing; once a row
/// with that name is inserted under a fresh identifier, the name
/// resolves, and only to that identifier: a file lookup right after the
/// first insert of a name finds exactly the assigned identifier.
pub proof fn lemma_create_then_get_file(m: Map<int, FileRecord>, id: int, rec: FileRecord)
    requires
        !file_map_has_name(m, rec.name),
        !m.dom().contains(id),
    ensures
        file_map_has_name(m.insert(id, rec), rec.name),
        forall|i: int|
            m.insert(id, rec).dom().contains(i) && m.insert(id, rec)[i].name == rec.name ==> i
                == id,
{
    assert(m.insert(id, rec).dom().contains(id) && m.insert(id, rec)[id].name == rec.name);
}

/// The same law for tags: a tag name that was not yet inserted resolves
/// to nothing; once a row with that name is inserted under a fresh
/// identifier, the name resolves, and only to that identifier.
pub proof fn lemma_create_then_get_tag(m: Map<int, Seq<char>>, id: int, name: Seq<char>)
    requires
        !map_has_name(m, name),
        !m.dom().contains(id),
    ensures
        map_has_name(m.insert(id, name), name),
        forall|i: int|
            m.insert(id, name).dom().contains(i) && m.insert(id, name)[i] == name ==> i == id,
{
    assert(m.insert(id, name).dom().contains(id) && m.insert(id, name)[id] == name);
}

/// After associating one tag with exactly the files `a` and `b`, once
/// each, a query for the files carrying that tag returns exactly `a` and
/// `b`, once each and in any order: two rows, both appear, and nothing
/// else — in particular not a third file `c` — does.  `ids` stands for
/// the identifiers of the returned rows, constrained just as
/// `get_files_for_tag` constrains its result.
pub proof fn lemma_files_for_tag_exact(
    files: Map<int, FileRecord>,
    links: Multiset<(int, int)>,
    t: int,
    a: int,
    b: int,
    c: int,
    ids: Seq<int>,
)
    requires
        files.dom().contains(a),
        files.dom().contains(b),
        files.dom().contains(c),
        a != b,
        a != c,
        b != c,
        links == Multiset::<(int, int)>::empty().insert((a, t)).insert((b, t)),
        forall|f: int|
            #[trigger] ids.to_multiset().count(f) == (if files.dom().contains(f) {
                links.count((f, t))
            } else {
                0
            }),
    ensures
        ids.len() == 2,
        ids.contains(a),
        ids.contains(b),
        !ids.contains(c),
        forall|i: int| 0 <= i < ids.len() ==> ids[i] == a || ids[i] == b,
{
    let pair = Multiset::<int>::empty().insert(a).insert(b);
    assert(links.count((a, t)) == 1);
    assert(links.count((b, t)) == 1);
    assert(ids.to_multiset().count(a) == 1);
    assert(ids.to_multiset().count(b) == 1);
    assert forall|x: int| ids.to_multiset().count(x) == pair.count(x) by {
        if x != a && x != b {
            assert(links.count((x, t)) == 0);
            assert(ids.to_multiset().count(x) == 0);
        }
    }
    assert(ids.to_multiset() =~= pair);
    assert(ids.len() == ids.to_multiset().len());
    assert(ids.to_multiset().count(c) == 0);
    assert forall|i: int| 0 <= i < ids.len() implies ids[i] == a || ids[i] == b by {
        assert(ids.contains(ids[i]));
        assert(ids.to_multiset().count(ids[i]) > 0);
    }
}

} // verus!
