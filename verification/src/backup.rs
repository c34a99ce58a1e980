//! Copying all tables of the extension to files, and back.
use vstd::prelude::*;

use crate::text;
use crate::text::{join_path, texts};

verus! {

/// The way in which a table is copied.
#[derive(Clone, Copy, Debug, PartialEq, Eq, Structural)]
pub enum Direction {
    /// From the table to its file.
    To,
    /// From its file to the table.
    From,
}

/// The tables, in an order in which each comes after those that it refers to.
pub open spec fn tables() -> Seq<Seq<char>> {
    seq!["projects"@, "snapshots"@, "models"@, "files"@, "deployments"@]
}

/// The path of the file of a table in a directory.
pub open spec fn file_path(directory: Seq<char>, table: Seq<char>) -> Seq<char> {
    text::joined_path(directory, table + ".csv"@)
}

/// The word that says in which way a table is copied.
pub open spec fn direction_text(direction: Direction) -> Seq<char> {
    match direction {
        Direction::To => " TO '"@,
        Direction::From => " FROM '"@,
    }
}

/// The statement that copies a table to or from its file in a directory.
pub open spec fn copy_text(
    direction: Direction,
    directory: Seq<char>,
    table: Seq<char>,
) -> Seq<char> {
    "COPY pgml."@ + table + direction_text(direction) + file_path(directory, table)
        + "' CSV HEADER"@
}

/// The statements that copy all tables, in order.
pub open spec fn copy_texts(direction: Direction, directory: Seq<char>) -> Seq<Seq<char>> {
    tables().map_values(|table: Seq<char>| copy_text(direction, directory, table))
}

fn copy_statement(direction: Direction, directory: &str, table: &str) -> (statement: String)
    ensures
        statement@ == copy_text(direction, directory@, table@),
{
    let mut file: String = table.to_owned();
    file.append(".csv");
    let path: String = join_path(directory, file.as_str());
    let mut statement: String = "COPY pgml.".to_owned();
    statement.append(table);
    match direction {
        Direction::To => statement.append(" TO '"),
        Direction::From => statement.append(" FROM '"),
    }
    statement.append(path.as_str());
    statement.append("' CSV HEADER");
    statement
}

fn copy_statements(direction: Direction, directory: &str) -> (statements: Vec<String>)
    ensures
        texts(statements@) == copy_texts(direction, directory@),
{
    let mut statements: Vec<String> = Vec::new();
    statements.push(copy_statement(direction, directory, "projects"));
    statements.push(copy_statement(direction, directory, "snapshots"));
    statements.push(copy_statement(direction, directory, "models"));
    statements.push(copy_statement(direction, directory, "files"));
    statements.push(copy_statement(direction, directory, "deployments"));
    assert(texts(statements@) =~= copy_texts(direction, directory@));
    statements
}

/// The statements that copy every table to a file in the directory `path`, to be run in order.
pub fn dump_all(path: &str) -> (statements: Vec<String>)
    ensures
        texts(statements@) == copy_texts(Direction::To, path@),
{
    copy_statements(Direction::To, path)
}

/// The statements that copy every table from its file in the directory `path`, to be run in
/// order.
pub fn load_all(path: &str) -> (statements: Vec<String>)
    ensures
        texts(statements@) == copy_texts(Direction::From, path@),
{
    copy_statements(Direction::From, path)
}

/// Loading reads what dumping wrote: statement by statement, the same table and the same file,
/// in the same form.
pub proof fn law_load_reads_what_dump_wrote(directory: Seq<char>, i: int)
    requires
        0 <= i < tables().len(),
    ensures
        copy_texts(Direction::To, directory).len() == tables().len(),
        copy_texts(Direction::From, directory).len() == tables().len(),
        copy_texts(Direction::To, directory)[i] == "COPY pgml."@ + tables()[i] + " TO '"@
            + file_path(directory, tables()[i]) + "' CSV HEADER"@,
        copy_texts(Direction::From, directory)[i] == "COPY pgml."@ + tables()[i] + " FROM '"@
            + file_path(directory, tables()[i]) + "' CSV HEADER"@,
{
}

/// A `/` at the end of the directory changes no statement, unless the directory is empty or
/// ends in one already.
pub proof fn law_trailing_slash_changes_nothing(direction: Direction, directory: Seq<char>)
    requires
        directory.len() > 0,
        directory.last() != '/',
    ensures
        copy_texts(direction, directory.push('/')) == copy_texts(direction, directory),
{
    assert forall|table: Seq<char>|
        #[trigger] copy_text(direction, directory.push('/'), table) == copy_text(
            direction,
            directory,
            table,
        ) by {
        assert(directory.push('/').last() == '/');
    }
    assert(copy_texts(direction, directory.push('/')) =~= copy_texts(direction, directory));
}

/// No two tables share a file.
pub proof fn law_files_are_distinct(directory: Seq<char>, i: int, j: int)
    requires
        0 <= i < j < tables().len(),
    ensures
        tables()[i] != tables()[j],
        file_path(directory, tables()[i]) != file_path(directory, tables()[j]),
{
    reveal_strlit("projects");
    reveal_strlit("snapshots");
    reveal_strlit("models");
    reveal_strlit("files");
    reveal_strlit("deployments");
    assert(tables()[i].len() != tables()[j].len());
    assert(file_path(directory, tables()[i]).len() != file_path(directory, tables()[j]).len());
}

/// The path of a table's file is the whole directory, the name of the table and `.csv`. One `/`
/// parts the directory from the name, unless the directory is empty or brings its own.
pub proof fn law_path_holds_directory(directory: Seq<char>, table: Seq<char>)
    ensures
        directory.len() == 0 || directory.last() == '/' ==> file_path(directory, table)
            == directory + table + ".csv"@,
        directory.len() > 0 && directory.last() != '/' ==> file_path(directory, table)
            == directory + seq!['/'] + table + ".csv"@,
{
    let file = table + ".csv"@;
    assert(directory + file =~= directory + table + ".csv"@);
    assert(directory.push('/') + file =~= directory + seq!['/'] + table + ".csv"@);
}

/// A dump writes, and a load reads, five statements: one for each table, projects first and
/// deployments last, with its file in the given directory.
pub proof fn law_statements_in_full(directory: Seq<char>, i: int, table: Seq<char>)
    requires
        ({
            ||| i == 0 && table == "projects"@
            ||| i == 1 && table == "snapshots"@
            ||| i == 2 && table == "models"@
            ||| i == 3 && table == "files"@
            ||| i == 4 && table == "deployments"@
        }),
    ensures
        copy_texts(Direction::To, directory).len() == 5,
        copy_texts(Direction::From, directory).len() == 5,
        directory.len() == 0 || directory.last() == '/' ==> {
            &&& copy_texts(Direction::To, directory)[i] == "COPY pgml."@ + table + " TO '"@ + (
            directory + table + ".csv"@) + "' CSV HEADER"@
            &&& copy_texts(Direction::From, directory)[i] == "COPY pgml."@ + table + " FROM '"@ + (
            directory + table + ".csv"@) + "' CSV HEADER"@
        },
        directory.len() > 0 && directory.last() != '/' ==> {
            &&& copy_texts(Direction::To, directory)[i] == "COPY pgml."@ + table + " TO '"@ + (
            directory + seq!['/'] + table + ".csv"@) + "' CSV HEADER"@
            &&& copy_texts(Direction::From, directory)[i] == "COPY pgml."@ + table + " FROM '"@ + (
            directory + seq!['/'] + table + ".csv"@) + "' CSV HEADER"@
        },
{
    law_path_holds_directory(directory, table);
}

} // verus!
