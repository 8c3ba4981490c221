//! Received files: under which name they are saved, and when they are removed.

use crate::text::{chars_of, text_between};
use vstd::prelude::*;

verus! {

/// Why a file name is refused.
#[derive(Debug, Clone, Copy, PartialEq, Eq, Structural)]
pub enum FilenameError {
    /// No component of the path names a file.
    Empty,
    /// The name holds a null character.
    Invalid,
}

/// What parts the components of a path, on any platform.
pub open spec fn is_separator(c: char) -> bool {
    c == '/' || c == '\\'
}

/// A component that names nothing of its own: an empty one, or a reference to a directory.
pub open spec fn is_nameless(part: Seq<char>) -> bool {
    ||| part.len() == 0
    ||| part == seq!['.']
    ||| part == seq!['.', '.']
}

/// Where the last component of a path starts.
pub open spec fn last_component_start(path: Seq<char>) -> int
    decreases path.len(),
{
    if path.len() == 0 || is_separator(path.last()) {
        path.len() as int
    } else {
        last_component_start(path.drop_last())
    }
}

/// The last component of a path that names something.
pub open spec fn last_name(path: Seq<char>) -> Option<Seq<char>>
    decreases path.len(),
{
    let start = last_component_start(path);
    if 0 <= start <= path.len() && !is_nameless(path.skip(start)) {
        Some(path.skip(start))
    } else if 0 < start <= path.len() {
        last_name(path.take(start - 1))
    } else {
        None
    }
}

/// The name under which a file with the path `input` is received.
pub open spec fn sanitized(input: Seq<char>) -> Result<Seq<char>, FilenameError> {
    match last_name(input) {
        None => Err(FilenameError::Empty),
        Some(name) => if name.contains('\0') {
            Err(FilenameError::Invalid)
        } else {
            Ok(name)
        },
    }
}

/// A single component of a path that names something: no separator or null character is in it, and
/// it is no reference to a directory.
pub open spec fn is_plain_name(name: Seq<char>) -> bool {
    &&& !is_nameless(name)
    &&& forall|i: int|
        0 <= i < name.len() ==> !is_separator(#[trigger] name[i]) && name[i] != '\0'
}

proof fn lemma_last_component(path: Seq<char>)
    ensures
        0 <= last_component_start(path) <= path.len(),
        last_component_start(path) > 0 ==> is_separator(path[last_component_start(path) - 1]),
        forall|i: int|
            last_component_start(path) <= i < path.len() ==> !is_separator(#[trigger] path[i]),
    decreases path.len(),
{
    if path.len() > 0 && !is_separator(path.last()) {
        let front = path.drop_last();
        lemma_last_component(front);
        assert forall|i: int| last_component_start(path) <= i < path.len() implies !is_separator(
            #[trigger] path[i],
        ) by {
            if i < front.len() {
                assert(front[i] == path[i]);
            }
        }
        if last_component_start(path) > 0 {
            assert(front[last_component_start(path) - 1] == path[last_component_start(path) - 1]);
        }
    }
}

proof fn lemma_component_boundary(path: Seq<char>, start: int)
    requires
        0 <= start <= path.len(),
        start > 0 ==> is_separator(path[start - 1]),
        forall|i: int| start <= i < path.len() ==> !is_separator(#[trigger] path[i]),
    ensures
        last_component_start(path) == start,
{
    lemma_last_component(path);
    let found = last_component_start(path);
    if found < start {
        assert(!is_separator(path[start - 1]));
    }
    if found > start {
        assert(!is_separator(path[found - 1]));
    }
}

fn is_separator_char(c: char) -> (separates: bool)
    ensures
        separates == is_separator(c),
{
    c == '/' || c == '\\'
}

fn names_nothing(chars: &Vec<char>, start: usize, end: usize) -> (nameless: bool)
    requires
        start <= end <= chars.len(),
    ensures
        nameless == is_nameless(chars@.subrange(start as int, end as int)),
{
    let ghost part = chars@.subrange(start as int, end as int);
    let len: usize = end - start;
    let nameless = len == 0 || (len == 1 && chars[start] == '.') || (len == 2 && chars[start] == '.'
        && chars[start + 1] == '.');
    proof {
        assert(len >= 1 ==> part[0] == chars@[start as int]);
        assert(len >= 2 ==> part[1] == chars@[start + 1]);
        if len == 1 && part[0] == '.' {
            assert(part =~= seq!['.']);
        }
        if len == 2 && part[0] == '.' && part[1] == '.' {
            assert(part =~= seq!['.', '.']);
        }
    }
    nameless
}

/// Reduces a path, with slashes of either kind, to the name of the file it ends in.
pub fn sanitize_filename(input: &str) -> (name: Result<String, FilenameError>)
    ensures
        match (sanitized(input@), name) {
            (Ok(expected), Ok(name)) => name@ == expected,
            (Err(expected), Err(error)) => error == expected,
            _ => false,
        },
{
    let chars = chars_of(input);
    let mut end: usize = chars.len();
    assert(chars@.take(end as int) =~= chars@);
    loop
        invariant
            chars@ == input@,
            end <= chars.len(),
            last_name(chars@.take(end as int)) == last_name(chars@),
        decreases end,
    {
        let mut start: usize = end;
        while start > 0 && !is_separator_char(chars[start - 1])
            invariant
                start <= end <= chars.len(),
                forall|i: int| start <= i < end ==> !is_separator(#[trigger] chars@[i]),
            decreases start,
        {
            start -= 1;
        }
        let ghost path = chars@.take(end as int);
        let ghost part = path.skip(start as int);
        proof {
            lemma_component_boundary(path, start as int);
        }
        assert(part =~= chars@.subrange(start as int, end as int));
        let nameless = names_nothing(&chars, start, end);
        if !nameless {
            let mut i: usize = start;
            while i < end
                invariant
                    start <= i <= end <= chars.len(),
                    chars@ == input@,
                    part == chars@.subrange(start as int, end as int),
                    last_name(input@) == Some(part),
                    forall|j: int| start <= j < i ==> #[trigger] chars@[j] != '\0',
                decreases end - i,
            {
                if chars[i] == '\0' {
                    assert(part[i - start] == '\0');
                    return Err(FilenameError::Invalid);
                }
                i += 1;
            }
            assert forall|j: int| 0 <= j < part.len() implies part[j] != '\0' by {
                assert(part[j] == chars@[start + j]);
            }
            return Ok(text_between(&chars, start, end));
        }
        if start == 0 {
            return Err(FilenameError::Empty);
        }
        assert(path.take(start - 1) =~= chars@.take(start - 1));
        end = start - 1;
    }
}

/// Whatever path a sender gives, the name under which the file is received is a single component:
/// no separator, null character or reference to a directory is left of the path.
pub proof fn received_name_is_plain(input: Seq<char>)
    ensures
        sanitized(input) matches Ok(name) ==> is_plain_name(name),
    decreases input.len(),
{
    lemma_last_component(input);
    let start = last_component_start(input);
    let part = input.skip(start);
    if !is_nameless(part) {
        assert forall|i: int| 0 <= i < part.len() implies !is_separator(#[trigger] part[i]) by {
            assert(part[i] == input[start + i]);
        }
        assert forall|i: int| 0 <= i < part.len() && !part.contains('\0') implies (
        #[trigger] part[i]) != '\0' by {
            assert(part.contains(part[i]));
        }
    } else if start > 0 {
        received_name_is_plain(input.take(start - 1));
    }
}

/// A name that is plain already is received as it is.
pub proof fn plain_name_is_kept(name: Seq<char>)
    requires
        is_plain_name(name),
    ensures
        sanitized(name) == Ok::<Seq<char>, FilenameError>(name),
{
    lemma_component_boundary(name, 0);
    assert(name.skip(0) =~= name);
}

/// Only the end of a path counts: whatever names a file goes by the same name behind any directory,
/// with a slash of either kind between them.
pub proof fn directories_are_dropped(directory: Seq<char>, separator: char, input: Seq<char>)
    requires
        is_separator(separator),
        last_name(input) is Some,
    ensures
        last_name(directory + seq![separator] + input) == last_name(input),
        sanitized(directory + seq![separator] + input) == sanitized(input),
    decreases input.len(),
{
    let path = directory + seq![separator] + input;
    let front = directory.len() + 1;
    let start = last_component_start(input);
    lemma_last_component(input);
    assert forall|i: int| front + start <= i < path.len() implies !is_separator(
        #[trigger] path[i],
    ) by {
        assert(path[i] == input[i - front]);
    }
    lemma_component_boundary(path, front + start);
    assert(path.skip(front + start) =~= input.skip(start));
    if is_nameless(input.skip(start)) {
        directories_are_dropped(directory, separator, input.take(start - 1));
        assert(path.take(front + start - 1) =~= directory + seq![separator] + input.take(
            start - 1,
        ));
    }
}

/// What names nothing at the end of a path changes nothing: neither a trailing slash of either
/// kind, nor a reference to a directory behind it.
pub proof fn nameless_ends_are_dropped(input: Seq<char>, separator: char, part: Seq<char>)
    requires
        is_separator(separator),
        is_nameless(part),
    ensures
        sanitized(input + seq![separator] + part) == sanitized(input),
{
    let path = input + seq![separator] + part;
    let start = input.len() + 1;
    assert forall|i: int| start <= i < path.len() implies !is_separator(#[trigger] path[i]) by {
        assert(path[i] == part[i - start]);
        assert(part[i - start] == '.');
    }
    lemma_component_boundary(path, start as int);
    assert(path.skip(start as int) =~= part);
    assert(path.take(start - 1) =~= input);
}

/// Where the extension of a name is parted off: at its last dot, unless that is its first
/// character.
pub open spec fn extension_dot(name: Seq<char>) -> Option<int> {
    match name.index_of_last('.') {
        Some(dot) if dot > 0 => Some(dot),
        _ => None,
    }
}

/// A name without its extension.
pub open spec fn stem(name: Seq<char>) -> Seq<char> {
    match extension_dot(name) {
        Some(dot) => name.take(dot),
        None => name,
    }
}

/// The extension of a name with its dot, empty for a name without one.
pub open spec fn dotted_extension(name: Seq<char>) -> Seq<char> {
    match extension_dot(name) {
        Some(dot) => name.skip(dot),
        None => Seq::empty(),
    }
}

/// A decimal digit.
pub open spec fn digit_char(digit: nat) -> char {
    (0x30 + digit) as char
}

/// A number in decimal.
pub open spec fn decimal(number: nat) -> Seq<char>
    decreases number,
{
    if number < 10 {
        seq![digit_char(number)]
    } else {
        decimal(number / 10).push(digit_char(number % 10))
    }
}

/// Whether a name starts with a drive, such as `C:`.
pub open spec fn has_drive(name: Seq<char>) -> bool {
    &&& name.len() >= 2
    &&& 'a' <= name[0] <= 'z' || 'A' <= name[0] <= 'Z'
    &&& name[1] == ':'
}

/// What of a name is numbered. On Windows a drive in front of it is no part of the file name, and
/// where the drive is all there is the file goes by a name for any file.
pub open spec fn numbered_part(name: Seq<char>, is_windows: bool) -> Seq<char> {
    if is_windows && has_drive(name) {
        if is_nameless(name.skip(2)) {
            "file"@
        } else {
            name.skip(2)
        }
    } else {
        name
    }
}

/// The name with a number in front of its extension: `name (index).ext`.
pub open spec fn numbered_name(name: Seq<char>, index: nat) -> Seq<char> {
    stem(name) + " ("@ + decimal(index) + ")"@ + dotted_extension(name)
}

/// The first number under which no name is tried any more.
pub const NAME_ATTEMPTS: u32 = 1000;

/// The name that is tried at an attempt: the plain one first, then numbered ones.
pub open spec fn attempted_name(name: Seq<char>, is_windows: bool, attempt: nat) -> Seq<char> {
    if attempt == 0 {
        name
    } else {
        numbered_name(numbered_part(name, is_windows), attempt)
    }
}

fn decimal_text(number: u32) -> (text: String)
    ensures
        text@ == decimal(number as nat),
    decreases number,
{
    let digit = (0x30 + (number % 10) as u8) as char;
    let mut text = if number < 10 {
        String::new()
    } else {
        decimal_text(number / 10)
    };
    text.push(digit);
    proof {
        if number < 10 {
            assert(text@ =~= seq![digit_char(number as nat)]);
        }
    }
    text
}

fn find_extension_dot(chars: &Vec<char>) -> (dot: Option<usize>)
    ensures
        match dot {
            Some(dot) => extension_dot(chars@) == Some(dot as int) && dot < chars.len(),
            None => extension_dot(chars@) is None,
        },
{
    let mut i: usize = chars.len();
    while i > 0
        invariant
            i <= chars.len(),
            forall|j: int| i <= j < chars.len() ==> chars@[j] != '.',
        decreases i,
    {
        i -= 1;
        if chars[i] == '.' {
            proof {
                assert(chars@.contains(chars@[i as int]));
                chars@.index_of_last_ensures('.');
            }
            return if i > 0 {
                Some(i)
            } else {
                None
            };
        }
    }
    proof {
        chars@.index_of_last_ensures('.');
    }
    None
}

fn part_to_number(name: &str, is_windows: bool) -> (part: Vec<char>)
    ensures
        part@ == numbered_part(name@, is_windows),
{
    let chars = chars_of(name);
    let has_drive = chars.len() >= 2 && (('a' <= chars[0] && chars[0] <= 'z') || ('A' <= chars[0]
        && chars[0] <= 'Z')) && chars[1] == ':';
    if !is_windows || !has_drive {
        return chars;
    }
    assert(chars@.subrange(2, chars.len() as int) =~= name@.skip(2));
    if names_nothing(&chars, 2, chars.len()) {
        return chars_of("file");
    }
    let rest = text_between(&chars, 2, chars.len());
    chars_of(&rest)
}

fn numbered(name: &str, is_windows: bool, index: u32) -> (candidate: String)
    ensures
        candidate@ == numbered_name(numbered_part(name@, is_windows), index as nat),
{
    let chars = part_to_number(name, is_windows);
    let cut = match find_extension_dot(&chars) {
        Some(dot) => dot,
        None => chars.len(),
    };
    let mut candidate = text_between(&chars, 0, cut);
    assert(candidate@ =~= stem(chars@));
    candidate.append(" (");
    candidate.append(&decimal_text(index));
    candidate.append(")");
    let extension = text_between(&chars, cut, chars.len());
    assert(extension@ =~= dotted_extension(chars@));
    candidate.append(&extension);
    candidate
}

/// What to do next with a received file.
#[derive(Debug)]
pub enum SaveStep {
    /// Look whether the directory holds this name.
    Check(String),
    /// Write the file under this name, which is free.
    Write(String),
    /// Every name that may be tried is taken.
    NoAvailableName,
}

/// What to do next with a received file, with the name as a character sequence.
pub enum SaveStepView {
    Check(Seq<char>),
    Write(Seq<char>),
    NoAvailableName,
}

impl View for SaveStep {
    type V = SaveStepView;

    open spec fn view(&self) -> SaveStepView {
        match *self {
            SaveStep::Check(name) => SaveStepView::Check(name@),
            SaveStep::Write(name) => SaveStepView::Write(name@),
            SaveStep::NoAvailableName => SaveStepView::NoAvailableName,
        }
    }
}

/// What follows when the name of an attempt turns out to be taken or free.
pub open spec fn save_step(
    name: Seq<char>,
    is_windows: bool,
    attempt: nat,
    taken: bool,
) -> SaveStepView {
    if !taken {
        SaveStepView::Write(attempted_name(name, is_windows, attempt))
    } else if attempt + 1 < NAME_ATTEMPTS {
        SaveStepView::Check(attempted_name(name, is_windows, attempt + 1))
    } else {
        SaveStepView::NoAvailableName
    }
}

/// The search for a name that is free in the receive directory.
#[derive(Debug)]
pub struct NameSearch {
    name: String,
    is_windows: bool,
    attempt: u32,
}

impl NameSearch {
    /// The name that the search started from.
    pub closed spec fn name(self) -> Seq<char> {
        self.name@
    }

    /// Whether paths are those of Windows.
    pub closed spec fn is_windows(self) -> bool {
        self.is_windows
    }

    /// How many names turned out to be taken.
    pub closed spec fn attempt(self) -> nat {
        self.attempt as nat
    }

    /// The search has not run out of names.
    pub open spec fn wf(self) -> bool {
        &&& is_plain_name(self.name())
        &&& self.attempt() < NAME_ATTEMPTS
    }

    /// Starts the search with the sanitized name of a received file.
    pub fn start(filename: &str, is_windows: bool) -> (search: Result<NameSearch, FilenameError>)
        ensures
            match (sanitized(filename@), search) {
                (Ok(name), Ok(search)) => {
                    &&& search.wf()
                    &&& search.name() == name
                    &&& search.is_windows() == is_windows
                    &&& search.attempt() == 0
                },
                (Err(expected), Err(error)) => error == expected,
                _ => false,
            },
    {
        proof {
            received_name_is_plain(filename@);
        }
        match sanitize_filename(filename) {
            Ok(name) => Ok(NameSearch { name, is_windows, attempt: 0 }),
            Err(error) => Err(error),
        }
    }

    /// The name to look for.
    pub fn candidate(&self) -> (name: String)
        requires
            self.wf(),
        ensures
            name@ == attempted_name(self.name(), self.is_windows(), self.attempt()),
            is_plain_name(name@),
    {
        proof {
            attempted_names_are_plain(self.name(), self.is_windows(), self.attempt());
        }
        if self.attempt == 0 {
            self.name.clone()
        } else {
            numbered(&self.name, self.is_windows, self.attempt)
        }
    }

    /// Takes the answer whether the directory holds the candidate, and says what to do.
    pub fn answer(&mut self, taken: bool) -> (step: SaveStep)
        requires
            old(self).wf(),
        ensures
            step@ == save_step(
                old(self).name(),
                old(self).is_windows(),
                old(self).attempt(),
                taken,
            ),
            final(self).wf(),
            final(self).name() == old(self).name(),
            final(self).is_windows() == old(self).is_windows(),
            final(self).attempt() == (if step@ is Check {
                old(self).attempt() + 1
            } else {
                old(self).attempt()
            }),
    {
        if !taken {
            return SaveStep::Write(self.candidate());
        }
        if self.attempt + 1 < NAME_ATTEMPTS {
            self.attempt = self.attempt + 1;
            return SaveStep::Check(self.candidate());
        }
        SaveStep::NoAvailableName
    }
}

proof fn lemma_decimal(number: nat)
    ensures
        decimal(number).len() >= 1,
        forall|i: int|
            0 <= i < decimal(number).len() ==> '0' <= #[trigger] decimal(number)[i] <= '9',
    decreases number,
{
    if number >= 10 {
        lemma_decimal(number / 10);
    }
}

/// Different numbers look different in decimal.
pub proof fn decimal_is_injective(a: nat, b: nat)
    requires
        decimal(a) == decimal(b),
    ensures
        a == b,
    decreases a,
{
    lemma_decimal(a / 10);
    lemma_decimal(b / 10);
    assert(decimal(a).last() == digit_char(a % 10));
    assert(decimal(b).last() == digit_char(b % 10));
    if a >= 10 && b >= 10 {
        assert(decimal(a).drop_last() =~= decimal(a / 10));
        assert(decimal(b).drop_last() =~= decimal(b / 10));
        decimal_is_injective(a / 10, b / 10);
    } else {
        assert(a < 10 ==> decimal(a).len() == 1);
        assert(b < 10 ==> decimal(b).len() == 1);
        assert(a >= 10 ==> decimal(a).len() >= 2);
        assert(b >= 10 ==> decimal(b).len() >= 2);
    }
}

proof fn lemma_name_parts(name: Seq<char>)
    ensures
        stem(name) + dotted_extension(name) == name,
{
    if let Some(dot) = extension_dot(name) {
        name.index_of_last_ensures('.');
        assert(name.take(dot) + name.skip(dot) =~= name);
    } else {
        assert(name + Seq::<char>::empty() =~= name);
    }
}

proof fn lemma_numbered_part(name: Seq<char>, is_windows: bool)
    ensures
        numbered_part(name, is_windows).len() + 4 > name.len(),
        is_plain_name(name) ==> is_plain_name(numbered_part(name, is_windows)),
{
    reveal_strlit("file");
    let part = numbered_part(name, is_windows);
    if is_windows && has_drive(name) {
        if is_nameless(name.skip(2)) {
            assert(name.skip(2).len() <= 2);
            assert("file"@.len() == 4);
        } else if is_plain_name(name) {
            assert forall|i: int| 0 <= i < part.len() implies !is_separator(#[trigger] part[i])
                && part[i] != '\0' by {
                assert(part[i] == name[i + 2]);
            }
        }
    }
}

/// No two attempts try the same name.
pub proof fn attempted_names_are_distinct(name: Seq<char>, is_windows: bool, a: nat, b: nat)
    requires
        attempted_name(name, is_windows, a) == attempted_name(name, is_windows, b),
    ensures
        a == b,
{
    reveal_strlit(" (");
    reveal_strlit(")");
    let part = numbered_part(name, is_windows);
    lemma_numbered_part(name, is_windows);
    lemma_name_parts(part);
    lemma_decimal(a);
    lemma_decimal(b);
    assert((stem(part) + dotted_extension(part)).len() == part.len());
    if a > 0 {
        assert(attempted_name(name, is_windows, a).len() == part.len() + 3 + decimal(a).len());
    }
    if b > 0 {
        assert(attempted_name(name, is_windows, b).len() == part.len() + 3 + decimal(b).len());
    }
    if a > 0 && b > 0 {
        let start = stem(part).len() + 2;
        let end = start + decimal(a).len();
        assert(decimal(a) =~= attempted_name(name, is_windows, a).subrange(
            start as int,
            end as int,
        ));
        assert(decimal(b) =~= attempted_name(name, is_windows, b).subrange(
            start as int,
            end as int,
        ));
        decimal_is_injective(a, b);
    }
}

/// Every name that is tried is plain.
pub proof fn attempted_names_are_plain(name: Seq<char>, is_windows: bool, attempt: nat)
    requires
        is_plain_name(name),
    ensures
        is_plain_name(attempted_name(name, is_windows, attempt)),
{
    if attempt > 0 {
        reveal_strlit(" (");
        reveal_strlit(")");
        let part = numbered_part(name, is_windows);
        lemma_numbered_part(name, is_windows);
        lemma_name_parts(part);
        lemma_decimal(attempt);
        let front = stem(part);
        let number = decimal(attempt);
        let back = dotted_extension(part);
        let candidate = attempted_name(name, is_windows, attempt);
        assert((front + back).len() == part.len());
        assert(candidate.len() == part.len() + 3 + number.len());
        assert forall|i: int| 0 <= i < candidate.len() implies !is_separator(
            #[trigger] candidate[i],
        ) && candidate[i] != '\0' by {
            if i < front.len() {
                assert(candidate[i] == (front + back)[i]);
            } else if i < front.len() + 2 {
            } else if i < front.len() + 2 + number.len() {
                assert(candidate[i] == number[i - front.len() - 2]);
            } else if i == front.len() + 2 + number.len() {
            } else {
                assert(candidate[i] == (front + back)[i - 3 - number.len()]);
            }
        }
    }
}

/// Where a search ends up that is answered, from an attempt on, by what the directory holds.
pub open spec fn search_result(
    name: Seq<char>,
    is_windows: bool,
    attempt: nat,
    held: spec_fn(Seq<char>) -> bool,
) -> Option<Seq<char>>
    decreases NAME_ATTEMPTS - attempt,
{
    match save_step(name, is_windows, attempt, held(attempted_name(name, is_windows, attempt))) {
        SaveStepView::Write(free) => Some(free),
        SaveStepView::Check(_) => if attempt < NAME_ATTEMPTS {
            search_result(name, is_windows, attempt + 1, held)
        } else {
            None
        },
        SaveStepView::NoAvailableName => None,
    }
}

/// A received file never replaces another: the name it is saved under is one that the directory
/// does not hold, the first such of the names tried, and the search fails only where the directory
/// holds all of them.
pub proof fn received_files_do_not_overwrite(
    name: Seq<char>,
    is_windows: bool,
    attempt: nat,
    held: spec_fn(Seq<char>) -> bool,
)
    requires
        attempt < NAME_ATTEMPTS,
    ensures
        match search_result(name, is_windows, attempt, held) {
            Some(free) => {
                &&& !held(free)
                &&& exists|k: nat|
                    #![trigger attempted_name(name, is_windows, k)]
                    {
                        &&& attempt <= k < NAME_ATTEMPTS
                        &&& free == attempted_name(name, is_windows, k)
                        &&& forall|j: nat|
                            attempt <= j < k ==> held(
                                #[trigger] attempted_name(name, is_windows, j),
                            )
                    }
            },
            None => forall|j: nat|
                attempt <= j < NAME_ATTEMPTS ==> held(
                    #[trigger] attempted_name(name, is_windows, j),
                ),
        },
    decreases NAME_ATTEMPTS - attempt,
{
    if held(attempted_name(name, is_windows, attempt)) && attempt + 1 < NAME_ATTEMPTS {
        received_files_do_not_overwrite(name, is_windows, attempt + 1, held);
        match search_result(name, is_windows, attempt + 1, held) {
            Some(free) => {
                let k = choose|k: nat|
                    #![trigger attempted_name(name, is_windows, k)]
                    {
                        &&& attempt + 1 <= k < NAME_ATTEMPTS
                        &&& free == attempted_name(name, is_windows, k)
                        &&& forall|j: nat|
                            attempt + 1 <= j < k ==> held(
                                #[trigger] attempted_name(name, is_windows, j),
                            )
                    };
                assert forall|j: nat| attempt <= j < k implies held(
                    #[trigger] attempted_name(name, is_windows, j),
                ) by {
                    if j > attempt {
                        assert(attempt + 1 <= j < k);
                    }
                }
            },
            None => {
                assert forall|j: nat| attempt <= j < NAME_ATTEMPTS implies held(
                    #[trigger] attempted_name(name, is_windows, j),
                ) by {
                    if j > attempt {
                        assert(attempt + 1 <= j < NAME_ATTEMPTS);
                    }
                }
            },
        }
    }
}

/// Whether an entry of the receive directory is removed: it is a regular file, and it was last
/// modified, as far as that is known, longer ago than files are retained. Times are nanoseconds
/// since the Unix epoch.
pub open spec fn is_outdated(
    is_file: bool,
    modified: Option<int>,
    now: int,
    retention: int,
) -> bool {
    match modified {
        Some(modified) => is_file && modified <= now && now - modified > retention,
        None => false,
    }
}

/// Whether an entry of the receive directory is removed at a cleanup.
pub fn should_remove(
    is_file: bool,
    modified_ns: Option<i128>,
    now_ns: i128,
    retention_ns: u128,
) -> (remove: bool)
    ensures
        remove == is_outdated(
            is_file,
            match modified_ns {
                Some(modified) => Some(modified as int),
                None => None,
            },
            now_ns as int,
            retention_ns as int,
        ),
{
    if !is_file {
        return false;
    }
    let modified = match modified_ns {
        Some(modified) => modified,
        None => return false,
    };
    if modified > now_ns {
        return false;
    }
    let age: u128 = if modified >= 0 || now_ns < 0 {
        (now_ns - modified) as u128
    } else {
        now_ns as u128 + (-(modified + 1)) as u128 + 1
    };
    age > retention_ns
}

/// A cleanup never takes a directory, a file from the future, or one within its retention time,
/// and what it takes now it would take at any later time.
pub proof fn cleanup_takes_old_files_only(
    is_file: bool,
    modified: Option<int>,
    now: int,
    later: int,
    retention: int,
)
    requires
        retention >= 0,
        now <= later,
    ensures
        is_outdated(is_file, modified, now, retention) ==> is_file && modified is Some
            && modified->0 + retention < now,
        is_outdated(is_file, modified, now, retention) ==> is_outdated(
            is_file,
            modified,
            later,
            retention,
        ),
{
}

} // verus!
