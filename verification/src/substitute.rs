//! Expansion of a template's argument skeleton into an argument vector.

use vstd::prelude::*;

use crate::config::{lemma_strings_view_push, strings_view};
use crate::text::{
    lemma_replace_absent, lemma_replace_whole, occurs_at, replace, replace_all, same_text,
};

verus! {

/// Placeholder for the path of the executable.
pub const EXECUTABLE_TOKEN: &'static str = "{{ffmpeg_path}}";

/// Placeholder for the path of the input file.
pub const INPUT_TOKEN: &'static str = "{{input_path}}";

/// Placeholder for the flattened options.
pub const OPTIONS_TOKEN: &'static str = "{{options}}";

/// Placeholder for the path of the output file.
pub const OUTPUT_TOKEN: &'static str = "{{output_path}}";

/// A skeleton token with the three single-value placeholders replaced
/// wherever they occur in it: first the executable's, then the input
/// path's, then the output path's.
pub open spec fn filled(
    token: Seq<char>,
    executable: Seq<char>,
    input_path: Seq<char>,
    output_path: Seq<char>,
) -> Seq<char> {
    replace_all(
        replace_all(replace_all(token, EXECUTABLE_TOKEN@, executable), INPUT_TOKEN@, input_path),
        OUTPUT_TOKEN@,
        output_path,
    )
}

/// Every token of `tokens` filled, in order.
pub open spec fn filled_all(
    tokens: Seq<Seq<char>>,
    executable: Seq<char>,
    input_path: Seq<char>,
    output_path: Seq<char>,
) -> Seq<Seq<char>> {
    Seq::new(tokens.len(), |i: int| filled(tokens[i], executable, input_path, output_path))
}

/// The argument vector that a skeleton stands for. The first token that is
/// exactly the options placeholder gives way to the flattened options, which
/// are taken as they are; every other token is filled.
pub open spec fn substituted(
    skeleton: Seq<Seq<char>>,
    executable: Seq<char>,
    input_path: Seq<char>,
    options: Seq<Seq<char>>,
    output_path: Seq<char>,
) -> Seq<Seq<char>> {
    match skeleton.index_of_first(OPTIONS_TOKEN@) {
        Some(at) => filled_all(skeleton.take(at), executable, input_path, output_path) + options
            + filled_all(skeleton.skip(at + 1), executable, input_path, output_path),
        None => filled_all(skeleton, executable, input_path, output_path),
    }
}

/// A token in which no single-value placeholder occurs passes through
/// unchanged.
pub proof fn lemma_literal_token_unchanged(
    token: Seq<char>,
    executable: Seq<char>,
    input_path: Seq<char>,
    output_path: Seq<char>,
)
    requires
        forall|i: int| !occurs_at(token, i, EXECUTABLE_TOKEN@),
        forall|i: int| !occurs_at(token, i, INPUT_TOKEN@),
        forall|i: int| !occurs_at(token, i, OUTPUT_TOKEN@),
    ensures
        filled(token, executable, input_path, output_path) == token,
{
    lemma_replace_absent(token, EXECUTABLE_TOKEN@, executable);
    lemma_replace_absent(token, INPUT_TOKEN@, input_path);
    lemma_replace_absent(token, OUTPUT_TOKEN@, output_path);
}

/// A token that is exactly a single-value placeholder becomes the value that
/// the placeholder stands for, as long as that value holds none of the
/// placeholders that are filled after it.
pub proof fn lemma_placeholder_token_filled(
    executable: Seq<char>,
    input_path: Seq<char>,
    output_path: Seq<char>,
)
    ensures
        (forall|i: int| !occurs_at(executable, i, INPUT_TOKEN@)) && (forall|i: int|
            !occurs_at(executable, i, OUTPUT_TOKEN@)) ==> filled(
            EXECUTABLE_TOKEN@,
            executable,
            input_path,
            output_path,
        ) == executable,
        (forall|i: int| !occurs_at(input_path, i, OUTPUT_TOKEN@)) ==> filled(
            INPUT_TOKEN@,
            executable,
            input_path,
            output_path,
        ) == input_path,
        filled(OUTPUT_TOKEN@, executable, input_path, output_path) == output_path,
{
    reveal_strlit("{{ffmpeg_path}}");
    reveal_strlit("{{input_path}}");
    reveal_strlit("{{output_path}}");
    let exe = EXECUTABLE_TOKEN@;
    let inp = INPUT_TOKEN@;
    let out = OUTPUT_TOKEN@;
    lemma_replace_whole(exe, executable);
    lemma_replace_whole(inp, input_path);
    lemma_replace_whole(out, output_path);
    if (forall|i: int| !occurs_at(executable, i, inp)) && (forall|i: int|
        !occurs_at(executable, i, out)) {
        lemma_replace_absent(executable, inp, input_path);
        lemma_replace_absent(executable, out, output_path);
    }
    assert forall|i: int| !occurs_at(inp, i, exe) by {}
    lemma_replace_absent(inp, exe, executable);
    if forall|i: int| !occurs_at(input_path, i, out) {
        lemma_replace_absent(input_path, out, output_path);
    }
    assert forall|i: int| !occurs_at(out, i, exe) by {
        if occurs_at(out, i, exe) {
            assert(i == 0);
            assert(out.subrange(0, 15)[2] == exe[2]);
        }
    }
    lemma_replace_absent(out, exe, executable);
    assert forall|i: int| !occurs_at(out, i, inp) by {
        if occurs_at(out, i, inp) {
            assert(i == 0 || i == 1);
            assert(out.subrange(i, i + 14)[2] == inp[2]);
        }
    }
    lemma_replace_absent(out, inp, input_path);
}

/// The flattened options take the place of the first options placeholder:
/// the tokens before it and after it are filled and keep their order, and
/// the options stand between them exactly as given.
pub proof fn lemma_options_take_placeholder_position(
    skeleton: Seq<Seq<char>>,
    executable: Seq<char>,
    input_path: Seq<char>,
    options: Seq<Seq<char>>,
    output_path: Seq<char>,
    at: int,
)
    requires
        0 <= at < skeleton.len(),
        skeleton[at] == OPTIONS_TOKEN@,
        forall|j: int| 0 <= j < at ==> skeleton[j] != OPTIONS_TOKEN@,
    ensures
        ({
            let arguments = substituted(skeleton, executable, input_path, options, output_path);
            &&& arguments.len() == skeleton.len() - 1 + options.len()
            &&& arguments.subrange(at, at + options.len()) == options
            &&& forall|k: int|
                0 <= k < at ==> #[trigger] arguments[k] == filled(
                    skeleton[k],
                    executable,
                    input_path,
                    output_path,
                )
            &&& forall|k: int|
                at < k < skeleton.len() ==> #[trigger] arguments[k - 1 + options.len()] == filled(
                    skeleton[k],
                    executable,
                    input_path,
                    output_path,
                )
        }),
{
    skeleton.index_of_first_ensures(OPTIONS_TOKEN@);
    let found = skeleton.index_of_first(OPTIONS_TOKEN@);
    assert(skeleton.contains(OPTIONS_TOKEN@));
    assert(found == Some(at)) by {
        let first = found.unwrap();
        if first < at {
            assert(skeleton[first] != OPTIONS_TOKEN@);
        }
    }
    let arguments = substituted(skeleton, executable, input_path, options, output_path);
    assert(arguments.subrange(at, at + options.len()) =~= options);
}

/// A skeleton without an options placeholder keeps its length: every token
/// is filled where it stands.
pub proof fn lemma_without_placeholder_filled_in_place(
    skeleton: Seq<Seq<char>>,
    executable: Seq<char>,
    input_path: Seq<char>,
    options: Seq<Seq<char>>,
    output_path: Seq<char>,
)
    requires
        forall|j: int| 0 <= j < skeleton.len() ==> skeleton[j] != OPTIONS_TOKEN@,
    ensures
        substituted(skeleton, executable, input_path, options, output_path) == filled_all(
            skeleton,
            executable,
            input_path,
            output_path,
        ),
{
    skeleton.index_of_first_ensures(OPTIONS_TOKEN@);
}

/// Fills one skeleton token.
pub fn fill_token(token: &str, executable: &str, input_path: &str, output_path: &str) -> (out:
    String)
    ensures
        out@ == filled(token@, executable@, input_path@, output_path@),
{
    let with_executable = replace(token, EXECUTABLE_TOKEN, executable);
    let with_input = replace(with_executable.as_str(), INPUT_TOKEN, input_path);
    replace(with_input.as_str(), OUTPUT_TOKEN, output_path)
}

/// Expands `skeleton` into the argument vector for one run.
pub fn substitute(
    skeleton: &Vec<String>,
    executable: &str,
    input_path: &str,
    options: &Vec<String>,
    output_path: &str,
) -> (arguments: Vec<String>)
    ensures
        strings_view(arguments@) == substituted(
            strings_view(skeleton@),
            executable@,
            input_path@,
            strings_view(options@),
            output_path@,
        ),
{
    let ghost tokens = strings_view(skeleton@);
    let ghost opts = strings_view(options@);
    let mut arguments: Vec<String> = Vec::new();
    let mut spliced_at: Option<usize> = None;
    let mut i: usize = 0;
    proof {
        tokens.index_of_first_ensures(OPTIONS_TOKEN@);
    }
    while i < skeleton.len()
        invariant
            i <= skeleton.len(),
            tokens == strings_view(skeleton@),
            opts == strings_view(options@),
            match spliced_at {
                Some(at) => at < i && tokens.index_of_first(OPTIONS_TOKEN@) == Some(at as int)
                    && strings_view(arguments@) == filled_all(
                    tokens.take(at as int),
                    executable@,
                    input_path@,
                    output_path@,
                ) + opts + filled_all(
                    tokens.subrange(at + 1, i as int),
                    executable@,
                    input_path@,
                    output_path@,
                ),
                None => (forall|j: int| 0 <= j < i ==> tokens[j] != OPTIONS_TOKEN@)
                    && strings_view(arguments@) == filled_all(
                    tokens.take(i as int),
                    executable@,
                    input_path@,
                    output_path@,
                ),
            },
        decreases skeleton.len() - i,
    {
        let ghost before = strings_view(arguments@);
        if spliced_at.is_none() && same_text(skeleton[i].as_str(), OPTIONS_TOKEN) {
            proof {
                tokens.index_of_first_ensures(OPTIONS_TOKEN@);
                assert(tokens[i as int] == OPTIONS_TOKEN@);
            }
            let mut k: usize = 0;
            while k < options.len()
                invariant
                    k <= options.len(),
                    opts == strings_view(options@),
                    strings_view(arguments@) == before + opts.take(k as int),
                decreases options.len() - k,
            {
                proof {
                    lemma_strings_view_push(arguments@, options@[k as int]);
                    assert(opts.take(k + 1) == opts.take(k as int).push(opts[k as int]));
                }
                arguments.push(options[k].clone());
                k += 1;
            }
            assert(opts.take(options.len() as int) == opts);
            spliced_at = Some(i);
            assert(strings_view(arguments@) =~= before + opts + filled_all(
                tokens.subrange(i + 1, i + 1),
                executable@,
                input_path@,
                output_path@,
            ));
        } else {
            let token = fill_token(skeleton[i].as_str(), executable, input_path, output_path);
            proof {
                lemma_strings_view_push(arguments@, token);
            }
            arguments.push(token);
            proof {
                assert(strings_view(arguments@) == before.push(
                    filled(tokens[i as int], executable@, input_path@, output_path@),
                ));
                match spliced_at {
                    Some(at) => {
                        assert(strings_view(arguments@) =~= filled_all(
                            tokens.take(at as int),
                            executable@,
                            input_path@,
                            output_path@,
                        ) + opts + filled_all(
                            tokens.subrange(at + 1, i + 1),
                            executable@,
                            input_path@,
                            output_path@,
                        ));
                    },
                    None => {
                        assert(strings_view(arguments@) =~= filled_all(
                            tokens.take(i + 1),
                            executable@,
                            input_path@,
                            output_path@,
                        ));
                    },
                }
            }
        }
        i += 1;
    }
    proof {
        tokens.index_of_first_ensures(OPTIONS_TOKEN@);
        match spliced_at {
            Some(at) => {
                assert(tokens.subrange(at + 1, tokens.len() as int) == tokens.skip(at + 1));
            },
            None => {
                assert(tokens.take(tokens.len() as int) == tokens);
            },
        }
    }
    arguments
}

} // verus!
