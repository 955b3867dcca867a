//! The vault directory: how portfolios are named on disk.
//!
//! Each portfolio is one file directly inside the vault directory, named
//! by the portfolio's name followed by `.sqlite`. A file belongs to a
//! portfolio when its name ends in `.sqlite` and something stands before
//! that: the file `.sqlite` itself names none.

use vstd::prelude::*;

verus! {

/// The characters that end the file name of every portfolio.
pub open spec fn suffix() -> Seq<char> {
    ".sqlite"@
}

/// The file name of the portfolio called `name`.
pub open spec fn file_name_of(name: Seq<char>) -> Seq<char> {
    name + suffix()
}

/// Whether a file of this name holds a portfolio.
pub open spec fn holds_portfolio(file: Seq<char>) -> bool {
    file.len() > suffix().len() && file.subrange(file.len() - suffix().len(), file.len() as int)
        == suffix()
}

/// The name of the portfolio that a file of this name holds.
pub open spec fn name_in(file: Seq<char>) -> Seq<char> {
    file.subrange(0, file.len() - suffix().len())
}

/// The portfolios among these files, in the order of the files.
pub open spec fn listed(files: Seq<Seq<char>>) -> Seq<Seq<char>>
    decreases files.len(),
{
    if files.len() == 0 {
        Seq::empty()
    } else if holds_portfolio(files.last()) {
        listed(files.drop_last()).push(name_in(files.last()))
    } else {
        listed(files.drop_last())
    }
}

/// The statement that hands `password` to the storage backend as the key
/// of the store it has just opened.
pub open spec fn key_statement_of(password: Seq<char>) -> Seq<char> {
    "PRAGMA key = '"@ + password + "';"@
}

/// The read that proves, on a store that has just been keyed, that the key
/// fits.
pub open spec fn verification_query() -> Seq<char> {
    "SELECT count(*) FROM sqlite_master"@
}

/// The file name of the portfolio called `name`.
pub fn portfolio_file_name(name: &str) -> (file: String)
    ensures
        file@ == file_name_of(name@),
{
    String::from_str(name).concat(".sqlite")
}

/// The statement that sets `password` as the key of a store.
///
/// The password stands in the statement as it is, between single quotes: a
/// password that holds a single quote ends the quoted text early, and the
/// backend then refuses the statement or reads another key from it.
pub fn key_statement(password: &str) -> (statement: String)
    ensures
        statement@ == key_statement_of(password@),
{
    String::from_str("PRAGMA key = '").concat(password).concat("';")
}

/// The statement of the verification read.
pub fn verification_statement() -> (statement: String)
    ensures
        statement@ == verification_query(),
{
    String::from_str("SELECT count(*) FROM sqlite_master")
}

/// The name of the portfolio that the file called `file` holds, if it holds
/// one.
pub fn portfolio_name(file: &str) -> (name: Option<String>)
    ensures
        match name {
            Some(name) => holds_portfolio(file@) && name@ == name_in(file@),
            None => !holds_portfolio(file@),
        },
{
    let ending = ".sqlite";
    proof {
        reveal_strlit(".sqlite");
    }
    let len = file.unicode_len();
    if len <= 7 {
        return None;
    }
    let start: usize = len - 7;
    let mut i: usize = 0;
    while i < 7
        invariant
            i <= 7,
            start + 7 == len,
            len == file@.len(),
            ending@ == suffix(),
            ending@.len() == 7,
            forall|j: int| 0 <= j < i ==> file@[start + j] == ending@[j],
        decreases 7 - i,
    {
        if file.get_char(start + i) != ending.get_char(i) {
            assert(file@.subrange(start as int, file@.len() as int)[i as int] != suffix()[i as int]);
            return None;
        }
        i = i + 1;
    }
    assert(file@.subrange(start as int, file@.len() as int) =~= suffix());
    Some(file.substring_char(0, start).to_owned())
}

/// The names of the portfolios in the vault directory, given the names of
/// the files in it, or `None` where the directory could not be read.
///
/// The names come in the order of the files. A directory that cannot be read
/// holds no portfolio.
pub fn list_portfolios(files: Option<Vec<String>>) -> (names: Vec<String>)
    ensures
        match files {
            Some(files) => names.deep_view() == listed(files.deep_view()),
            None => names.deep_view() == Seq::<Seq<char>>::empty(),
        },
{
    let mut names: Vec<String> = Vec::new();
    let files = match files {
        Some(files) => files,
        None => {
            assert(names.deep_view() =~= Seq::<Seq<char>>::empty());
            return names;
        },
    };
    assert(files.deep_view().take(0) =~= Seq::<Seq<char>>::empty());
    assert(names.deep_view() =~= Seq::<Seq<char>>::empty());
    let mut i: usize = 0;
    while i < files.len()
        invariant
            i <= files.len(),
            names.deep_view() == listed(files.deep_view().take(i as int)),
        decreases files.len() - i,
    {
        let ghost before = names.deep_view();
        assert(files.deep_view().take(i + 1).drop_last() =~= files.deep_view().take(i as int));
        assert(files.deep_view().take(i + 1).last() == files[i as int]@);
        match portfolio_name(files[i].as_str()) {
            Some(name) => {
                names.push(name);
                assert(names.deep_view() =~= before.push(name_in(files[i as int]@)));
            },
            None => {},
        }
        i = i + 1;
    }
    assert(files.deep_view().take(files.len() as int) =~= files.deep_view());
    names
}

/// The file of a portfolio with a name holds that portfolio.
pub proof fn file_of_name_holds_it(name: Seq<char>)
    requires
        name.len() > 0,
    ensures
        holds_portfolio(file_name_of(name)),
        name_in(file_name_of(name)) == name,
{
    let file = file_name_of(name);
    assert(file.subrange(file.len() - suffix().len(), file.len() as int) =~= suffix());
    assert(name_in(file) =~= name);
}

/// A file that holds a portfolio is the file of that portfolio's name.
pub proof fn file_that_holds_is_file_of_name(file: Seq<char>)
    requires
        holds_portfolio(file),
    ensures
        file_name_of(name_in(file)) == file,
{
    assert(file_name_of(name_in(file)) =~= file);
}

/// Every listed name is the name in one of the files that hold a portfolio,
/// and every such file is listed.
pub proof fn listed_names_are_those_of_the_files(files: Seq<Seq<char>>, name: Seq<char>)
    ensures
        listed(files).contains(name) <==> exists|i: int|
            0 <= i < files.len() && holds_portfolio(#[trigger] files[i]) && name_in(files[i])
                == name,
    decreases files.len(),
{
    if files.len() == 0 {
    } else {
        let front = files.drop_last();
        listed_names_are_those_of_the_files(front, name);
        let here = holds_portfolio(files.last()) && name_in(files.last()) == name;
        if listed(files).contains(name) {
            if holds_portfolio(files.last()) {
                let k = choose|k: int| 0 <= k < listed(files).len() && listed(files)[k] == name;
                if k < listed(front).len() {
                    assert(listed(front)[k] == name);
                    assert(listed(front).contains(name));
                }
            }
            if !here {
                assert(listed(front).contains(name));
                let i = choose|i: int|
                    0 <= i < front.len() && holds_portfolio(#[trigger] front[i]) && name_in(
                        front[i],
                    ) == name;
                assert(files[i] == front[i]);
            } else {
                assert(files[files.len() - 1] == files.last());
            }
        }
        if exists|i: int|
            0 <= i < files.len() && holds_portfolio(#[trigger] files[i]) && name_in(files[i])
                == name {
            let i = choose|i: int|
                0 <= i < files.len() && holds_portfolio(#[trigger] files[i]) && name_in(files[i])
                    == name;
            if i < files.len() - 1 {
                assert(front[i] == files[i]);
                assert(listed(front).contains(name));
                let k = choose|k: int| 0 <= k < listed(front).len() && listed(front)[k] == name;
                assert(listed(files)[k] == name);
            } else {
                assert(listed(files)[listed(files).len() - 1] == name);
            }
        }
    }
}

/// Once no file of the vault directory is the file of `name`, the listing
/// does not show `name`.
pub proof fn name_without_file_is_not_listed(files: Seq<Seq<char>>, name: Seq<char>)
    requires
        !files.contains(file_name_of(name)),
    ensures
        !listed(files).contains(name),
{
    listed_names_are_those_of_the_files(files, name);
    if listed(files).contains(name) {
        let i = choose|i: int|
            0 <= i < files.len() && holds_portfolio(#[trigger] files[i]) && name_in(files[i])
                == name;
        file_that_holds_is_file_of_name(files[i]);
        assert(files.contains(file_name_of(name)));
    }
}

/// While the file of a portfolio with a name is in the vault directory, the
/// listing shows that name.
pub proof fn name_with_file_is_listed(files: Seq<Seq<char>>, name: Seq<char>)
    requires
        name.len() > 0,
        files.contains(file_name_of(name)),
    ensures
        listed(files).contains(name),
{
    listed_names_are_those_of_the_files(files, name);
    file_of_name_holds_it(name);
    let i = choose|i: int| 0 <= i < files.len() && files[i] == file_name_of(name);
    assert(holds_portfolio(files[i]) && name_in(files[i]) == name);
}

} // verus!
