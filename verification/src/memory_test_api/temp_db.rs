//! The guard that keeps validation off the production database.

use vstd::prelude::*;

use crate::text::{split_on, split_str, str_eq};

verus! {

/// The production database, relative to the application directory.
pub const PRODUCTION_DATABASE_PATH: &'static str = "data/game_database.db";

/// The pieces of a path that are components: everything between slashes except
/// empty pieces and `.` (which `Path::components` normalises away).
pub open spec fn normal_pieces(pieces: Seq<Seq<char>>) -> Seq<Seq<char>>
    decreases pieces.len(),
{
    if pieces.len() == 0 {
        Seq::<Seq<char>>::empty()
    } else if pieces.last().len() == 0 || pieces.last() == "."@ {
        normal_pieces(pieces.drop_last())
    } else {
        normal_pieces(pieces.drop_last()).push(pieces.last())
    }
}

/// Whether `path` names the production database in the sense of `Path`
/// equality (equal components): a relative path that does not begin with `.`
/// and whose components are `data` and `game_database.db`.
pub open spec fn is_production_database_path(path: Seq<char>) -> bool {
    let pieces = split_on(path, '/');
    &&& !(path.len() > 0 && path[0] == '/')
    &&& pieces[0] != "."@
    &&& normal_pieces(pieces) == seq!["data"@, "game_database.db"@]
}

/// Whether a database path is safe for validation: not the production database.
pub fn is_test_database_path(path: &str) -> (b: bool)
    ensures
        b == !is_production_database_path(path@),
{
    proof {
        crate::text::lemma_split_on_nonempty(path@, '/');
    }
    let pieces = split_str(path, '/');
    let absolute = path.unicode_len() > 0 && path.get_char(0) == '/';
    let leading_dot = str_eq(pieces[0].as_str(), ".");
    let mut normal: Vec<String> = Vec::new();
    let mut i: usize = 0;
    while i < pieces.len()
        invariant
            i <= pieces.len(),
            normal.deep_view() == normal_pieces(pieces.deep_view().subrange(0, i as int)),
        decreases pieces.len() - i,
    {
        assert(pieces.deep_view().subrange(0, i + 1).drop_last() =~= pieces.deep_view().subrange(
            0,
            i as int,
        ));
        let p = pieces[i].clone();
        if p.unicode_len() > 0 && !str_eq(p.as_str(), ".") {
            normal.push(p);
            assert(normal.deep_view() =~= normal_pieces(pieces.deep_view().subrange(0, i as int)).push(
                pieces.deep_view()[i as int],
            ));
        }
        i = i + 1;
    }
    assert(pieces.deep_view().subrange(0, pieces@.len() as int) =~= pieces.deep_view());
    let matches_production = normal.len() == 2 && str_eq(normal[0].as_str(), "data") && str_eq(
        normal[1].as_str(),
        "game_database.db",
    );
    proof {
        if matches_production {
            assert(normal.deep_view() =~= seq!["data"@, "game_database.db"@]);
        }
        if normal.deep_view() == seq!["data"@, "game_database.db"@] {
            assert(normal.deep_view()[0] == "data"@);
            assert(normal.deep_view()[1] == "game_database.db"@);
        }
    }
    !(!absolute && !leading_dot && matches_production)
}

/// Asserts that validation does not use the production database. Verified
/// callers prove the path safe; unverified callers check `is_test_database_path`
/// first.
pub fn assert_is_test_database(path: &str)
    requires
        !is_production_database_path(path@),
{
}

} // verus!
