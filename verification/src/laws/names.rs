//! The names of received files.

use crate::file_transfer::{
    attempted_name, decimal, directories_are_dropped, is_nameless, is_separator,
    last_component_start, last_name, nameless_ends_are_dropped, numbered_name, numbered_part,
    received_name_is_plain, sanitize_filename, sanitized, save_step, FilenameError, NameSearch, SaveStep, SaveStepView,
};
use vstd::prelude::*;

verus! {

proof fn lemma_single_component(name: Seq<char>)
    requires
        forall|i: int| 0 <= i < name.len() ==> name[i] != '/' && name[i] != '\\',
    ensures
        last_component_start(name) == 0,
        name.skip(0) == name,
    decreases name.len(),
{
    assert(name.skip(0) =~= name);
    if name.len() > 0 {
        lemma_single_component(name.drop_last());
    }
}

/// A name that holds neither of the two slashes nor a null character, and is not empty, `.` or
/// `..`, is received under exactly that name, also behind any directory and either slash.
pub proof fn base_names_are_kept(directory: Seq<char>, name: Seq<char>)
    requires
        name.len() > 0,
        name != seq!['.'],
        name != seq!['.', '.'],
        forall|i: int| 0 <= i < name.len() ==> name[i] != '/' && name[i] != '\\' && name[i] != '\0',
    ensures
        sanitized(name) == Ok::<Seq<char>, FilenameError>(name),
        sanitized(directory + seq!['/'] + name) == Ok::<Seq<char>, FilenameError>(name),
        sanitized(directory + seq!['\\'] + name) == Ok::<Seq<char>, FilenameError>(name),
{
    lemma_single_component(name);
    assert(!name.contains('\0'));
    assert(last_name(name) == Some(name));
    directories_are_dropped(directory, '/', name);
    directories_are_dropped(directory, '\\', name);
}

/// A base name with a null character is refused as invalid, behind any directory.
pub proof fn null_characters_are_refused(directory: Seq<char>, name: Seq<char>)
    requires
        name.contains('\0'),
        forall|i: int| 0 <= i < name.len() ==> name[i] != '/' && name[i] != '\\',
    ensures
        sanitized(name) == Err::<Seq<char>, FilenameError>(FilenameError::Invalid),
        sanitized(directory + seq!['/'] + name) == Err::<Seq<char>, FilenameError>(
            FilenameError::Invalid,
        ),
        sanitized(directory + seq!['\\'] + name) == Err::<Seq<char>, FilenameError>(
            FilenameError::Invalid,
        ),
{
    lemma_single_component(name);
    let k = choose|k: int| 0 <= k < name.len() && name[k] == '\0';
    assert(!is_nameless(name)) by {
        if name == seq!['.'] {
            assert(name[k] == '.');
        }
        if name == seq!['.', '.'] {
            assert(name[k] == '.');
        }
    }
    assert(last_name(name) == Some(name));
    directories_are_dropped(directory, '/', name);
    directories_are_dropped(directory, '\\', name);
}

/// A slash of either kind at the end of a path changes nothing, and neither does `.` or `..` behind
/// it.
pub proof fn path_ends_are_ignored(path: Seq<char>)
    ensures
        sanitized(path + seq!['/']) == sanitized(path),
        sanitized(path + seq!['\\']) == sanitized(path),
        sanitized(path + seq!['/', '.']) == sanitized(path),
        sanitized(path + seq!['\\', '.']) == sanitized(path),
        sanitized(path + seq!['/', '.', '.']) == sanitized(path),
        sanitized(path + seq!['\\', '.', '.']) == sanitized(path),
{
    assert forall|separator: char| is_separator(separator) implies #[trigger] sanitized(
        path + seq![separator],
    ) == sanitized(path) && sanitized(path + seq![separator, '.']) == sanitized(path)
        && sanitized(path + seq![separator, '.', '.']) == sanitized(path) by {
        nameless_ends_are_dropped(path, separator, Seq::empty());
        nameless_ends_are_dropped(path, separator, seq!['.']);
        nameless_ends_are_dropped(path, separator, seq!['.', '.']);
        assert(path + seq![separator] + Seq::<char>::empty() =~= path + seq![separator]);
        assert(path + seq![separator] + seq!['.'] =~= path + seq![separator, '.']);
        assert(path + seq![separator] + seq!['.', '.'] =~= path + seq![separator, '.', '.']);
    }
    assert(is_separator('/') && is_separator('\\'));
}

/// Nothing, `.` and `..` name no file.
pub proof fn nothing_names_no_file()
    ensures
        sanitized(Seq::empty()) == Err::<Seq<char>, FilenameError>(FilenameError::Empty),
        sanitized(seq!['.']) == Err::<Seq<char>, FilenameError>(FilenameError::Empty),
        sanitized(seq!['.', '.']) == Err::<Seq<char>, FilenameError>(FilenameError::Empty),
{
    lemma_single_component(Seq::empty());
    lemma_single_component(seq!['.']);
    lemma_single_component(seq!['.', '.']);
}

/// Numbers are written in decimal, digit by digit.
pub proof fn numbers_are_decimal(number: nat, digit: nat)
    requires
        digit < 10,
    ensures
        decimal(digit) == seq![(48 + digit) as char],
        number > 0 ==> decimal(10 * number + digit) == decimal(number).push((48 + digit) as char),
{
    if number > 0 {
        assert((10 * number + digit) / 10 == number);
        assert((10 * number + digit) % 10 == digit);
    }
}

/// The number stands between the base and the extension, which starts at the last dot.
pub proof fn number_stands_before_the_extension(
    base: Seq<char>,
    extension: Seq<char>,
    index: nat,
)
    requires
        base.len() > 0,
        forall|i: int| 0 <= i < extension.len() ==> extension[i] != '.',
    ensures
        numbered_name(base + seq!['.'] + extension, index) == base + seq![' ', '('] + decimal(index)
            + seq![')', '.'] + extension,
{
    reveal_strlit(" (");
    reveal_strlit(")");
    let name = base + seq!['.'] + extension;
    name.index_of_last_ensures('.');
    let dot = base.len() as int;
    assert(name[dot] == '.');
    assert(name.contains('.'));
    let last = name.index_of_last('.')->0;
    assert(last == dot) by {
        if last > dot {
            assert(name[last] == extension[last - dot - 1]);
        }
    }
    assert(name.take(dot) =~= base);
    assert(name.skip(dot) =~= seq!['.'] + extension);
    assert(numbered_name(name, index) =~= base + seq![' ', '('] + decimal(index) + seq![')', '.']
        + extension);
}

/// A name without a dot behind its first character has no extension: the number stands at its end.
pub proof fn number_stands_at_the_end(name: Seq<char>, index: nat)
    requires
        forall|i: int| 0 < i < name.len() ==> name[i] != '.',
    ensures
        numbered_name(name, index) == name + seq![' ', '('] + decimal(index) + seq![')'],
{
    reveal_strlit(" (");
    reveal_strlit(")");
    name.index_of_last_ensures('.');
    assert(numbered_name(name, index) =~= name + seq![' ', '('] + decimal(index) + seq![')']);
}

/// The first name that is tried is the name itself; on systems without drives the later ones are
/// the numbered ones.
pub proof fn names_are_tried_plain_then_numbered(name: Seq<char>, is_windows: bool, index: nat)
    requires
        index > 0,
    ensures
        attempted_name(name, is_windows, 0) == name,
        attempted_name(name, false, index) == numbered_name(name, index),
{
}

/// On Windows a drive letter with its colon is left off when the rest is numbered, and a bare drive
/// gives `file`. A name with nothing of the kind in front is numbered as it is.
pub proof fn drives_are_left_off_on_windows(drive: char, rest: Seq<char>, index: nat)
    requires
        index > 0,
    ensures
        ({
            let name = seq![drive, ':'] + rest;
            let is_drive = ('a' <= drive && drive <= 'z') || ('A' <= drive && drive <= 'Z');
            &&& is_drive && rest.len() > 0 && rest != seq!['.'] && rest != seq!['.', '.']
                ==> attempted_name(name, true, index) == numbered_name(rest, index)
            &&& is_drive && (rest.len() == 0 || rest == seq!['.'] || rest == seq!['.', '.'])
                ==> attempted_name(name, true, index) == numbered_name(
                seq!['f', 'i', 'l', 'e'],
                index,
            )
            &&& !is_drive ==> attempted_name(name, true, index) == numbered_name(name, index)
        }),
        (rest.len() < 2 || rest[1] != ':') ==> attempted_name(rest, true, index) == numbered_name(
            rest,
            index,
        ),
{
    reveal_strlit("file");
    let name = seq![drive, ':'] + rest;
    assert(name.skip(2) =~= rest);
    assert("file"@ =~= seq!['f', 'i', 'l', 'e']);
    assert(name[0] == drive && name[1] == ':');
    assert(numbered_part(name, true) == if is_nameless(rest) {
        "file"@
    } else {
        rest
    } || numbered_part(name, true) == name);
}

/// A free name is written, a taken one leads to the next, and after the plain name and 999 numbered
/// ones the search gives up.
pub proof fn search_goes_on_until_a_name_is_free(name: Seq<char>, is_windows: bool, attempt: nat)
    ensures
        save_step(name, is_windows, attempt, false) == SaveStepView::Write(
            attempted_name(name, is_windows, attempt),
        ),
        attempt < 999 ==> save_step(name, is_windows, attempt, true) == SaveStepView::Check(
            attempted_name(name, is_windows, attempt + 1),
        ),
        attempt >= 999 ==> save_step(name, is_windows, attempt, true)
            == SaveStepView::NoAvailableName,
{
}

/// A path that ends in a proper name, behind no directory or any, is reduced to that very name: the
/// characters that part directories are the two slashes and no others.
pub proof fn paths_are_reduced_to_their_names(
    directory: Seq<char>,
    name: Seq<char>,
    path: &str,
    result: Result<String, FilenameError>,
)
    requires
        call_ensures(sanitize_filename, (path,), result),
        path@ == name || path@ == directory + seq!['/'] + name || path@ == directory + seq!['\\']
            + name,
        name.len() > 0,
        name != seq!['.'],
        name != seq!['.', '.'],
        forall|i: int| 0 <= i < name.len() ==> name[i] != '/' && name[i] != '\\' && name[i] != '\0',
    ensures
        result matches Ok(received) && received@ == name,
{
    base_names_are_kept(directory, name);
}

/// What a path is reduced to is a piece of it that holds neither slash and no null character, and is
/// not empty, `.` or `..`.
pub proof fn received_names_are_pieces_of_their_paths(
    path: &str,
    result: Result<String, FilenameError>,
)
    requires
        call_ensures(sanitize_filename, (path,), result),
    ensures
        result matches Ok(name) ==> {
            &&& name@.len() > 0
            &&& name@ != seq!['.']
            &&& name@ != seq!['.', '.']
            &&& forall|i: int|
                0 <= i < name@.len() ==> #[trigger] name@[i] != '/' && name@[i] != '\\' && name@[i]
                    != '\0'
        },
{
    received_name_is_plain(path@);
    if let Ok(name) = result {
        assert forall|i: int| 0 <= i < name@.len() implies #[trigger] name@[i] != '/' && name@[i]
            != '\\' && name@[i] != '\0' by {
            assert(!is_separator(name@[i]));
        }
    }
}

/// A search starts with the plain name of the received file, and offers the plain name first.
pub proof fn searches_start_with_the_plain_name(
    path: &str,
    name: Seq<char>,
    is_windows: bool,
    started: Result<NameSearch, FilenameError>,
    search: &NameSearch,
    candidate: String,
)
    requires
        call_ensures(NameSearch::start, (path, is_windows), started),
        path@ == name,
        name.len() > 0,
        name != seq!['.'],
        name != seq!['.', '.'],
        forall|i: int| 0 <= i < name.len() ==> name[i] != '/' && name[i] != '\\' && name[i] != '\0',
        started == Ok::<NameSearch, FilenameError>(*search),
        call_ensures(NameSearch::candidate, (search,), candidate),
    ensures
        candidate@ == name,
        search.name() == name,
        search.is_windows() == is_windows,
        search.attempt() == 0,
{
    base_names_are_kept(Seq::empty(), name);
}

/// A search writes the file under the candidate if that is free, goes on to the next number if it is
/// taken, and gives up once 999 numbers are taken.
pub proof fn searches_write_under_the_free_candidate(
    search: &mut NameSearch,
    candidate: String,
    taken: bool,
    step: SaveStep,
)
    requires
        old(search).wf(),
        call_ensures(NameSearch::candidate, (old(search),), candidate),
        call_ensures(NameSearch::answer, (search, taken), step),
    ensures
        step is Write <==> !taken,
        step matches SaveStep::Write(name) ==> name@ == candidate@,
        step is Check <==> taken && old(search).attempt() < 999,
        step matches SaveStep::Check(next) ==> {
            &&& next@ == attempted_name(
                old(search).name(),
                old(search).is_windows(),
                old(search).attempt() + 1,
            )
            &&& final(search).attempt() == old(search).attempt() + 1
        },
        !(step is Check) ==> final(search).attempt() == old(search).attempt(),
        final(search).name() == old(search).name(),
        final(search).is_windows() == old(search).is_windows(),
{
}

} // verus!
