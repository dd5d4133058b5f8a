//! The loaded configuration: an ordered store of command templates.

use vstd::prelude::*;

use crate::error::ErrorKind;
use crate::hash::{get_hash, hash_code};

verus! {

/// One flag of a command together with its value, both kept as text.
#[derive(Clone, Debug, PartialEq, Eq)]
pub struct CommandOption {
    pub flag: String,
    pub value: String,
}

/// What a [`CommandOption`] holds.
pub struct OptionView {
    pub flag: Seq<char>,
    pub value: Seq<char>,
}

impl View for CommandOption {
    type V = OptionView;

    open spec fn view(&self) -> OptionView {
        OptionView { flag: self.flag@, value: self.value@ }
    }
}

/// The contents of a list of options, in order.
pub open spec fn options_view(options: Seq<CommandOption>) -> Seq<OptionView> {
    Seq::new(options.len(), |i: int| options[i]@)
}

/// The contents of a list of strings, in order.
pub open spec fn strings_view(strings: Seq<String>) -> Seq<Seq<char>> {
    Seq::new(strings.len(), |i: int| strings[i]@)
}

/// Appending a string to a list appends its contents to the list's contents.
pub proof fn lemma_strings_view_push(strings: Seq<String>, last: String)
    ensures
        strings_view(strings.push(last)) == strings_view(strings).push(last@),
{
    assert(strings_view(strings.push(last)) =~= strings_view(strings).push(last@));
}

/// The options as they are handed to a command: each flag followed by its
/// value, in the order of the list.
pub open spec fn flattened(options: Seq<OptionView>) -> Seq<Seq<char>> {
    Seq::new(
        2 * options.len(),
        |i: int|
            if i % 2 == 0 {
                options[i / 2].flag
            } else {
                options[i / 2].value
            },
    )
}

/// A named, reusable command recipe.
#[derive(Clone, Debug, PartialEq, Eq)]
pub struct Command {
    pub title: String,
    pub options: Vec<CommandOption>,
    pub output_extension: String,
    pub output_filename_suffix: String,
    pub command: Vec<String>,
}

/// What a [`Command`] holds.
pub struct CommandView {
    pub title: Seq<char>,
    pub options: Seq<OptionView>,
    pub output_extension: Seq<char>,
    pub output_filename_suffix: Seq<char>,
    pub command: Seq<Seq<char>>,
}

impl View for Command {
    type V = CommandView;

    open spec fn view(&self) -> CommandView {
        CommandView {
            title: self.title@,
            options: options_view(self.options@),
            output_extension: self.output_extension@,
            output_filename_suffix: self.output_filename_suffix@,
            command: strings_view(self.command@),
        }
    }
}

/// The fallback location of the executable and the templates, in the order
/// in which they were written down.
#[derive(Clone, Debug, PartialEq, Eq)]
pub struct Config {
    pub ffmpeg_path: String,
    pub commands: Vec<Command>,
}

/// What a [`Config`] holds.
pub struct ConfigView {
    pub ffmpeg_path: Seq<char>,
    pub commands: Seq<CommandView>,
}

impl View for Config {
    type V = ConfigView;

    open spec fn view(&self) -> ConfigView {
        ConfigView {
            ffmpeg_path: self.ffmpeg_path@,
            commands: Seq::new(self.commands@.len(), |i: int| self.commands@[i]@),
        }
    }
}

impl ConfigView {
    /// The hash codes of the templates, in the order of the templates.
    pub open spec fn codes(self) -> Seq<Seq<char>> {
        Seq::new(self.commands.len(), |i: int| hash_code(self.commands[i].title))
    }

    /// Position of the first template whose hash code is `code`, if any.
    pub open spec fn position_of_hash(self, code: Seq<char>) -> Option<int> {
        self.codes().index_of_first(code)
    }

    /// The template at position `index`.
    pub open spec fn lookup_by_index(self, index: int) -> Result<CommandView, ErrorKind> {
        if 0 <= index < self.commands.len() {
            Ok(self.commands[index])
        } else {
            Err(ErrorKind::OutOfRange)
        }
    }

    /// The first template whose hash code is `code`.
    pub open spec fn lookup_by_hash(self, code: Seq<char>) -> Result<CommandView, ErrorKind> {
        match self.position_of_hash(code) {
            Some(i) => Ok(self.commands[i]),
            None => Err(ErrorKind::NotFound),
        }
    }
}

/// What the position found for a hash code means: the template there
/// carries the code and no earlier one does; where no position is found, no
/// template carries it.
pub proof fn lemma_position_of_hash(config: ConfigView, code: Seq<char>)
    ensures
        match config.position_of_hash(code) {
            Some(i) => {
                &&& 0 <= i < config.commands.len()
                &&& hash_code(config.commands[i].title) == code
                &&& forall|j: int| 0 <= j < i ==> hash_code(config.commands[j].title) != code
            },
            None => forall|j: int|
                0 <= j < config.commands.len() ==> hash_code(config.commands[j].title) != code,
        },
{
    config.codes().index_of_first_ensures(code);
    match config.position_of_hash(code) {
        Some(i) => {
            assert forall|j: int| 0 <= j < i implies hash_code(config.commands[j].title)
                != code by {
                assert(config.codes()[j] != code);
            }
        },
        None => {
            assert forall|j: int| 0 <= j < config.commands.len() implies hash_code(
                config.commands[j].title,
            ) != code by {
                assert(config.codes()[j] == hash_code(config.commands[j].title));
            }
        },
    }
}

/// Looking a template up by the hash code of its title finds the template at
/// that title's position, provided the titles are pairwise distinct and no
/// earlier template happens to share the hash code.
pub proof fn lemma_hash_lookup_agrees_with_index(config: ConfigView, index: int)
    requires
        0 <= index < config.commands.len(),
        forall|i: int, j: int|
            0 <= i < j < config.commands.len() ==> config.commands[i].title
                != config.commands[j].title,
        forall|j: int|
            0 <= j < index ==> hash_code(config.commands[j].title) != hash_code(
                config.commands[index].title,
            ),
    ensures
        config.position_of_hash(hash_code(config.commands[index].title)) == Some(index),
        config.lookup_by_hash(hash_code(config.commands[index].title)) == config.lookup_by_index(
            index,
        ),
{
    let code = hash_code(config.commands[index].title);
    config.codes().index_of_first_ensures(code);
    assert(config.codes()[index] == code);
}

impl Config {
    /// Position of the first template whose hash code is `code`.
    pub fn position_of_hash(&self, code: &str) -> (found: Option<usize>)
        ensures
            match found {
                Some(i) => self@.position_of_hash(code@) == Some(i as int),
                None => self@.position_of_hash(code@) is None,
            },
    {
        let wanted: String = code.to_owned();
        let mut i: usize = 0;
        proof {
            self@.codes().index_of_first_ensures(code@);
        }
        while i < self.commands.len()
            invariant
                i <= self.commands.len(),
                wanted@ == code@,
                forall|j: int| 0 <= j < i ==> self@.codes()[j] != code@,
            decreases self.commands.len() - i,
        {
            let candidate: String = get_hash(self.commands[i].title.clone());
            if candidate == wanted {
                proof {
                    self@.codes().index_of_first_ensures(code@);
                    assert(self@.codes()[i as int] == code@);
                }
                return Some(i);
            }
            i += 1;
        }
        proof {
            self@.codes().index_of_first_ensures(code@);
        }
        None
    }

    /// The template at position `index`; `OutOfRange` when there is none.
    pub fn lookup_by_index(&self, index: usize) -> (found: Result<&Command, ErrorKind>)
        ensures
            match found {
                Ok(command) => index < self.commands@.len() && *command
                    == self.commands@[index as int],
                Err(e) => index >= self.commands@.len() && e == ErrorKind::OutOfRange,
            },
            match found {
                Ok(command) => Ok(command@),
                Err(e) => Err(e),
            } == self@.lookup_by_index(index as int),
    {
        if index < self.commands.len() {
            Ok(&self.commands[index])
        } else {
            Err(ErrorKind::OutOfRange)
        }
    }

    /// The first template whose hash code is `code`; `NotFound` when no
    /// template carries that code. Titles need not be distinct, and distinct
    /// titles may share a code: of several templates with the code, the one
    /// that comes first is meant.
    pub fn lookup_by_hash(&self, code: &str) -> (found: Result<&Command, ErrorKind>)
        ensures
            match found {
                Ok(command) => self@.position_of_hash(code@) matches Some(i) && 0 <= i
                    < self.commands@.len() && *command == self.commands@[i],
                Err(e) => self@.position_of_hash(code@) is None && e == ErrorKind::NotFound,
            },
            match found {
                Ok(command) => Ok(command@),
                Err(e) => Err(e),
            } == self@.lookup_by_hash(code@),
    {
        proof {
            self@.codes().index_of_first_ensures(code@);
        }
        match self.position_of_hash(code) {
            Some(i) => Ok(&self.commands[i]),
            None => Err(ErrorKind::NotFound),
        }
    }
}

/// A copy of a list of strings.
pub fn clone_strings(strings: &Vec<String>) -> (copy: Vec<String>)
    ensures
        copy@ == strings@,
{
    let mut copy: Vec<String> = Vec::new();
    let mut i: usize = 0;
    while i < strings.len()
        invariant
            i <= strings.len(),
            copy@ == strings@.take(i as int),
        decreases strings.len() - i,
    {
        copy.push(strings[i].clone());
        i += 1;
    }
    copy
}

/// A copy of a list of options.
pub fn clone_options(options: &Vec<CommandOption>) -> (copy: Vec<CommandOption>)
    ensures
        copy@ == options@,
{
    let mut copy: Vec<CommandOption> = Vec::new();
    let mut i: usize = 0;
    while i < options.len()
        invariant
            i <= options.len(),
            copy@ == options@.take(i as int),
        decreases options.len() - i,
    {
        copy.push(
            CommandOption { flag: options[i].flag.clone(), value: options[i].value.clone() },
        );
        i += 1;
    }
    copy
}

/// Renders a list of options as the tokens handed to a command: each flag
/// followed by its value, in the order of the list.
pub fn flatten(options: &Vec<CommandOption>) -> (tokens: Vec<String>)
    ensures
        strings_view(tokens@) == flattened(options_view(options@)),
        tokens@.len() == 2 * options@.len(),
{
    let mut tokens: Vec<String> = Vec::new();
    let mut i: usize = 0;
    while i < options.len()
        invariant
            i <= options.len(),
            tokens@.len() == 2 * i,
            forall|k: int|
                0 <= k < 2 * i ==> (#[trigger] tokens@[k])@ == flattened(
                    options_view(options@),
                )[k],
        decreases options.len() - i,
    {
        tokens.push(options[i].flag.clone());
        tokens.push(options[i].value.clone());
        i += 1;
    }
    assert(strings_view(tokens@) =~= flattened(options_view(options@)));
    tokens
}

} // verus!
