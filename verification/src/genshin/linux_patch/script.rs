use vstd::prelude::*;
use crate::strings::{to_chars, from_chars, push_chars, push_str, contains, str_contains};
use crate::text::{is_byte_boundary, char_at_byte, char_index_at_byte, replace_all, replace_chars};

verus! {

/// How many bytes at the start of a patch script hold its test guards
pub const GUARDED_BYTES: usize = 650;

/// A patch script with its test guards turned off: in its first 650 bytes
/// every `exit` becomes `#exit`, then every `read` becomes `#read`
pub open spec fn spec_unguarded(script: Seq<char>) -> Seq<char> {
    let k = char_at_byte(script, GUARDED_BYTES as int);
    replace_all(replace_all(script.take(k), "exit"@, "#exit"@), "read"@, "#read"@) + script.skip(k)
}

/// Removes the `exit` and `read` commands from the beginning of a patch
/// script: these lines are used for test patch restrictions. The script's
/// 650th byte must start a character
pub fn strip_test_guards(script: &str) -> (r: String)
    requires
        is_byte_boundary(script@, GUARDED_BYTES as int),
    ensures
        r@ == spec_unguarded(script@),
{
    let chars = to_chars(script);
    let k = char_index_at_byte(chars.as_slice(), GUARDED_BYTES).unwrap();
    let head = &chars.as_slice()[0..k];
    let tail = &chars.as_slice()[k..chars.len()];
    assert(head@ =~= script@.take(k as int));
    assert(tail@ =~= script@.skip(k as int));
    proof {
        reveal_strlit("exit");
        reveal_strlit("read");
    }
    let step = replace_chars(head, "exit", "#exit");
    let done = replace_chars(step.as_slice(), "read", "#read");
    let mut r = from_chars(done.as_slice());
    push_chars(&mut r, tail);
    r
}

/// A revert script without its file timestamp checks
pub open spec fn spec_unchecked_revert(script: Seq<char>) -> Seq<char> {
    replace_all(script, "difftime=$"@, "difftime=0 #difftime=$"@)
}

/// Removes the file timestamp checks of a revert script, for a forced revert
pub fn remove_timestamp_checks(script: &str) -> (r: String)
    ensures
        r@ == spec_unchecked_revert(script@),
{
    proof {
        reveal_strlit("difftime=$");
    }
    let chars = to_chars(script);
    let done = replace_chars(chars.as_slice(), "difftime=$", "difftime=0 #difftime=$");
    from_chars(done.as_slice())
}

/// The command that `pkexec bash -c` runs to apply a patch as root: it
/// enters the game folder, then runs the patch script (pkexec ignores the
/// current working directory)
pub open spec fn spec_root_command(game_folder: Seq<char>, patch_file: Seq<char>) -> Seq<char> {
    "cd '"@ + game_folder + "' ; bash '"@ + patch_file + "'"@
}

pub fn root_command(game_folder: &str, patch_file: &str) -> (r: String)
    ensures
        r@ == spec_root_command(game_folder@, patch_file@),
{
    let mut r = String::new();
    push_str(&mut r, "cd '");
    push_str(&mut r, game_folder);
    push_str(&mut r, "' ; bash '");
    push_str(&mut r, patch_file);
    push_str(&mut r, "'");
    r
}

/// Whether the output of a patch script says that the patch was applied
pub fn patch_applied(output: &str) -> (r: bool)
    ensures
        r == contains(output@, "Patch applied!"@),
{
    str_contains(output, "Patch applied!")
}

/// Whether the output of a revert script says that it worked: it reports
/// no error
pub fn patch_reverted(output: &str) -> (r: bool)
    ensures
        r == !contains(output@, "ERROR: "@),
{
    !str_contains(output, "ERROR: ")
}

} // verus!
