//! The fixed registry of boards and the on-disk places of each board.
use vstd::prelude::*;
use vstd::string::*;
use crate::text::text_eq;

verus! {

/// A board of the registry.
#[derive(Debug, Clone, Copy)]
pub struct BoardDef {
    pub slug: &'static str,
    pub name: &'static str,
    pub desc: &'static str,
}

/// The boards that exist, in display order.
pub open spec fn registry() -> Seq<BoardDef> {
    seq![
        BoardDef {
            slug: "chess",
            name: "General Chess",
            desc: "Discuss chess questions, general strategy, analysis, news, and all things chess. Friendly for all levels.",
        },
        BoardDef {
            slug: "puzzles",
            name: "Puzzles",
            desc: "Share, solve, and discuss chess puzzles and studies. Tactics, checkmates, and brilliant finds!",
        },
        BoardDef {
            slug: "openings",
            name: "Openings",
            desc: "Debate opening theory, share repertoires, and explore move orders from the first move onward.",
        },
    ]
}

/// The first board of `s` whose slug is `slug`.
pub open spec fn lookup(s: Seq<BoardDef>, slug: Seq<char>) -> Option<BoardDef>
    decreases s.len(),
{
    if s.len() == 0 {
        None
    } else if s[0].slug@ == slug {
        Some(s[0])
    } else {
        lookup(s.drop_first(), slug)
    }
}

/// The registry.
pub fn boards() -> (r: Vec<BoardDef>)
    ensures
        r@ == registry(),
{
    let r = vec![
        BoardDef {
            slug: "chess",
            name: "General Chess",
            desc: "Discuss chess questions, general strategy, analysis, news, and all things chess. Friendly for all levels.",
        },
        BoardDef {
            slug: "puzzles",
            name: "Puzzles",
            desc: "Share, solve, and discuss chess puzzles and studies. Tactics, checkmates, and brilliant finds!",
        },
        BoardDef {
            slug: "openings",
            name: "Openings",
            desc: "Debate opening theory, share repertoires, and explore move orders from the first move onward.",
        },
    ];
    assert(r@ =~= registry());
    r
}

/// The board with the given slug, if the registry has one.
pub fn get_board(slug: &str) -> (r: Option<BoardDef>)
    ensures
        r == lookup(registry(), slug@),
{
    let all = boards();
    assert(all@.subrange(0, all@.len() as int) =~= all@);
    let mut i: usize = 0;
    while i < all.len()
        invariant
            all@ == registry(),
            i <= all@.len(),
            lookup(registry(), slug@) == lookup(all@.subrange(i as int, all@.len() as int), slug@),
        decreases all@.len() - i,
    {
        let ghost rest = all@.subrange(i as int, all@.len() as int);
        assert(rest.drop_first() =~= all@.subrange(i + 1, all@.len() as int));
        if text_eq(all[i].slug, slug) {
            return Some(all[i]);
        }
        i = i + 1;
    }
    None
}

/// A board name with every '.' and '/' taken out, so that it names one
/// directory below the boards' root.
pub open spec fn strip_path(s: Seq<char>) -> Seq<char>
    decreases s.len(),
{
    if s.len() == 0 {
        Seq::empty()
    } else if s.last() == '.' || s.last() == '/' {
        strip_path(s.drop_last())
    } else {
        strip_path(s.drop_last()).push(s.last())
    }
}

/// Where a board keeps its files.
#[derive(Debug)]
pub struct BoardPaths {
    pub dir: String,
    pub db: String,
    pub uploads: String,
}

pub open spec fn board_dir(board: Seq<char>) -> Seq<char> {
    "chess/"@ + strip_path(board)
}

/// The places of a board's directory, database and uploads.
pub fn get_board_paths(board: &str) -> (r: BoardPaths)
    ensures
        r.dir@ == board_dir(board@),
        r.db@ == board_dir(board@) + "/db.sqlite"@,
        r.uploads@ == board_dir(board@) + "/uploads"@,
{
    let n = board.unicode_len();
    let mut safe = String::new();
    let mut i: usize = 0;
    while i < n
        invariant
            n == board@.len(),
            i <= n,
            safe@ == strip_path(board@.subrange(0, i as int)),
        decreases n - i,
    {
        let c = board.get_char(i);
        proof {
            assert(board@.subrange(0, i + 1).drop_last() =~= board@.subrange(0, i as int));
        }
        if c != '.' && c != '/' {
            let piece = board.substring_char(i, i + 1);
            safe.append(piece);
            assert(piece@ =~= seq![c]);
        }
        i = i + 1;
    }
    assert(board@.subrange(0, n as int) =~= board@);
    let mut dir = String::from_str("chess/");
    dir.append(safe.as_str());
    let mut db = dir.clone();
    db.append("/db.sqlite");
    let mut uploads = dir.clone();
    uploads.append("/uploads");
    BoardPaths { dir, db, uploads }
}

} // verus!
