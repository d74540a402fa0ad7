//! How the program reads its surroundings when it starts, and how it ends.

use vstd::prelude::*;

verus! {

/// The path of the connection to the window manager: the last argument of the
/// program, or nothing where it has none. The first entry of `args` is the name
/// of the program itself.
pub fn shared_path(args: Vec<String>) -> (r: String)
    ensures
        r@ == (if args@.len() > 1 {
            args@.last()@
        } else {
            Seq::<char>::empty()
        }),
{
    let mut args: Vec<String> = args;
    if args.len() > 1 {
        match args.pop() {
            Some(path) => path,
            None => String::new(),
        }
    } else {
        String::new()
    }
}

/// Whether there is a connection to the window manager to open: not where its
/// path is empty.
pub fn wants_transport(shared_path: &String) -> (r: bool)
    ensures
        r == (shared_path@.len() > 0),
{
    !shared_path.as_str().is_empty()
}

/// The font to use: the one that is asked for, or a plain one.
pub fn font_description(configured: Option<String>) -> (r: String)
    ensures
        r@ == (match configured {
            Some(font) => font@,
            None => "monospace 11"@,
        }),
{
    match configured {
        Some(font) => font,
        None => "monospace 11".to_owned(),
    }
}

/// The outcome of the program: the status of the event loop is an error unless
/// it is zero.
pub fn exit_outcome(status: i32) -> (r: Result<(), i32>)
    ensures
        r == (if status == 0 {
            Ok(())
        } else {
            Err(status)
        }),
{
    if status == 0 {
        Ok(())
    } else {
        Err(status)
    }
}

/// The path is the last argument, however many there are: arguments before it do
/// not matter, and the name of the program is not one.
pub proof fn law_path_is_last_argument(args: Vec<String>, r: String)
    requires
        call_ensures(shared_path, (args,), r),
    ensures
        args@.len() >= 2 ==> r@ == args@[args@.len() - 1]@,
        args@.len() < 2 ==> r@.len() == 0,
{
}

/// A connection is wanted exactly where the path that was found has a character.
pub proof fn law_connection_needs_a_path(path: String, wanted: bool)
    requires
        call_ensures(wants_transport, (&path,), wanted),
    ensures
        wanted <==> path@ != Seq::<char>::empty(),
{
    if path@.len() == 0 {
        assert(path@ =~= Seq::<char>::empty());
    }
}

/// A font that is asked for is taken as it is, and the plain one only where none
/// is.
pub proof fn law_configured_font_is_used(configured: Option<String>, r: String)
    requires
        call_ensures(font_description, (configured,), r),
    ensures
        configured matches Some(font) ==> r@ == font@,
        configured is None ==> r@ == "monospace 11"@,
{
}

/// The program ends well exactly where the event loop does, and tells its status
/// otherwise.
pub proof fn law_status_decides_outcome(status: i32, r: Result<(), i32>)
    requires
        call_ensures(exit_outcome, (status,), r),
    ensures
        r is Ok <==> status == 0,
        r matches Err(told) ==> told == status,
{
}

} // verus!
