use vstd::prelude::*;

verus! {

/// The server's own databases, which are never backed up: the default
/// administrative database and the two templates.
pub open spec fn is_administrative(name: Seq<char>) -> bool {
    name == "postgres"@ || name == "template0"@ || name == "template1"@
}

/// Whether `name` is one of the server's own databases.
pub fn is_administrative_name(name: &String) -> (r: bool)
    ensures
        r == is_administrative(name@),
{
    let postgres = String::from_str("postgres");
    let template0 = String::from_str("template0");
    let template1 = String::from_str("template1");
    *name == postgres || *name == template0 || *name == template1
}

/// The databases to back up among the names in the catalog.
pub open spec fn targets_spec(catalog: Seq<Seq<char>>) -> Seq<Seq<char>> {
    catalog.filter(|name: Seq<char>| !is_administrative(name))
}

/// The names of the catalog that are not the server's own databases, in
/// the catalog's order.
pub fn select_targets(catalog: &Vec<String>) -> (r: Vec<String>)
    ensures
        r.deep_view() == targets_spec(catalog.deep_view()),
{
    let ghost names = catalog.deep_view();
    let mut targets: Vec<String> = Vec::new();
    let mut i: usize = 0;
    while i < catalog.len()
        invariant
            i <= catalog.len(),
            names == catalog.deep_view(),
            targets.deep_view() == targets_spec(names.subrange(0, i as int)),
        decreases catalog.len() - i,
    {
        let name = &catalog[i];
        let ghost before = targets.deep_view();
        proof {
            reveal(Seq::filter);
            assert(names.subrange(0, i + 1).drop_last() =~= names.subrange(0, i as int));
            assert(names[i as int] == name@);
            assert(names.subrange(0, i + 1).last() == name@);
            assert(targets_spec(names.subrange(0, i + 1)) == (if !is_administrative(name@) {
                targets_spec(names.subrange(0, i as int)).push(name@)
            } else {
                targets_spec(names.subrange(0, i as int))
            }));
        }
        if !is_administrative_name(name) {
            targets.push(name.clone());
            proof {
                assert(targets.deep_view() =~= before.push(name@));
            }
        }
        i = i + 1;
    }
    proof {
        assert(names.subrange(0, i as int) =~= names);
    }
    targets
}

} // verus!
