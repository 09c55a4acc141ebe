//! The operations through which an interpreted program reaches its host.

use vstd::prelude::*;
use crate::error::{Env, RuntimeResult, FILE_IO_UNSUPPORTED, IMPORT_UNSUPPORTED};

verus! {

/// `bits` is the pattern of a double-precision number that is at least 0 and
/// less than 1. Among the numbers that are not negative a smaller number has
/// the smaller pattern, and 1 has the pattern `0x3FF0_0000_0000_0000`; the
/// pattern with the sign alone is the zero written with a minus.
pub open spec fn in_unit_interval(bits: u64) -> bool {
    bits < 0x3FF0_0000_0000_0000 || bits == 0x8000_0000_0000_0000
}

/// Whether `bits` is the pattern of a number that is at least 0 and less
/// than 1: what a backend has to hold its random numbers to.
pub fn is_unit_interval(bits: u64) -> (inside: bool)
    ensures
        inside == in_unit_interval(bits),
{
    bits < 0x3FF0_0000_0000_0000 || bits == 0x8000_0000_0000_0000
}

/// What an interpreted program can ask of its host. A backend has to print
/// and to draw random numbers. Each of the other operations has an answer for
/// the backend that leaves it out: nothing there, or the error that names
/// what is missing; and such an answer changes nothing in the backend.
pub trait IoBackend {
    /// The values of the interpreted language.
    type Value;

    /// Prints `s`.
    fn print_str(&mut self, s: &str);

    /// Draws a random number that is at least 0 and less than 1, and answers
    /// with its pattern as a double-precision number.
    fn rand(&mut self) -> (bits: u64)
        ensures
            in_unit_interval(bits),
    ;

    /// Reads one line of input. Left out: the empty text.
    fn scan_line(&mut self) -> (line: String)
        default_ensures
            line@ == Seq::<char>::empty(),
            &*final(self) == &*old(self),
    {
        String::new()
    }

    /// Runs the module at `name`, once, and answers with the values that it
    /// left. Left out: the error that import is not supported.
    fn import(&mut self, name: &str, env: &Env) -> (result: RuntimeResult<Vec<Self::Value>>)
        default_ensures
            result matches Err(error) && error@ == env.raised(IMPORT_UNSUPPORTED@),
            &*final(self) == &*old(self),
    {
        Err(env.error(IMPORT_UNSUPPORTED))
    }

    /// The value of a variable of the host's environment. Left out: none.
    fn var(&mut self, name: &str) -> (value: Option<String>)
        default_ensures
            value is None,
            &*final(self) == &*old(self),
    {
        None
    }

    /// The arguments that the program was started with. Left out: none.
    fn args(&mut self) -> (args: Vec<String>)
        default_ensures
            args@ == Seq::<String>::empty(),
            &*final(self) == &*old(self),
    {
        Vec::new()
    }

    /// Whether `path` exists. Left out: it does not.
    fn file_exists(&self, path: &str) -> (found: bool)
        default_ensures
            !found,
    {
        false
    }

    /// The paths in the directory `path`. Left out: the error that file
    /// access is not supported.
    fn list_dir(&self, path: &str, env: &Env) -> (result: RuntimeResult<Vec<String>>)
        default_ensures
            result matches Err(error) && error@ == env.raised(FILE_IO_UNSUPPORTED@),
    {
        Err(env.error(FILE_IO_UNSUPPORTED))
    }

    /// Whether `path` is a file. Left out: the error that file access is not
    /// supported.
    fn is_file(&self, path: &str, env: &Env) -> (result: RuntimeResult<bool>)
        default_ensures
            result matches Err(error) && error@ == env.raised(FILE_IO_UNSUPPORTED@),
    {
        Err(env.error(FILE_IO_UNSUPPORTED))
    }

    /// The bytes of the file `path`. Left out: the error that file access is
    /// not supported.
    fn read_file(&mut self, path: &str, env: &Env) -> (result: RuntimeResult<Vec<u8>>)
        default_ensures
            result matches Err(error) && error@ == env.raised(FILE_IO_UNSUPPORTED@),
            &*final(self) == &*old(self),
    {
        Err(env.error(FILE_IO_UNSUPPORTED))
    }

    /// Writes `contents` to the file `path`. Left out: the error that file
    /// access is not supported.
    fn write_file(&mut self, path: &str, contents: Vec<u8>, env: &Env) -> (result: RuntimeResult)
        default_ensures
            result matches Err(error) && error@ == env.raised(FILE_IO_UNSUPPORTED@),
            &*final(self) == &*old(self),
    {
        Err(env.error(FILE_IO_UNSUPPORTED))
    }
}

/// A backend that is borrowed for a while is a backend: each operation is the
/// operation of the backend behind the borrow, on that backend, with the same
/// arguments, and nothing is added to its answer or kept from it.
///
/// In the contracts below `lent` is the loan on which the backend's own
/// operation is called: it begins with the backend as it was and ends with
/// the backend as it is after the call, and the answer is one that the
/// backend's own operation gives on it. The first clause of an operation that
/// may change the backend says that the borrow is still the borrow that it
/// was: what it gives back in the end is what it would have given back.
impl<'a, T: IoBackend> IoBackend for &'a mut T {
    type Value = T::Value;

    fn print_str(&mut self, s: &str)
        ensures
            *final(*final(self)) == *final(*old(self)),
            exists|lent: &mut T|
                *lent == **old(self) && *final(lent) == **final(self) && #[trigger] call_ensures(
                    T::print_str,
                    (lent, s),
                    (),
                ),
    {
        (**self).print_str(s)
    }

    fn rand(&mut self) -> (bits: u64)
        ensures
            *final(*final(self)) == *final(*old(self)),
            exists|lent: &mut T|
                *lent == **old(self) && *final(lent) == **final(self) && #[trigger] call_ensures(
                    T::rand,
                    (lent,),
                    bits,
                ),
    {
        (**self).rand()
    }

    fn scan_line(&mut self) -> (line: String)
        ensures
            *final(*final(self)) == *final(*old(self)),
            exists|lent: &mut T|
                *lent == **old(self) && *final(lent) == **final(self) && #[trigger] call_ensures(
                    T::scan_line,
                    (lent,),
                    line,
                ),
    {
        (**self).scan_line()
    }

    fn import(&mut self, name: &str, env: &Env) -> (result: RuntimeResult<Vec<T::Value>>)
        ensures
            *final(*final(self)) == *final(*old(self)),
            exists|lent: &mut T|
                *lent == **old(self) && *final(lent) == **final(self) && #[trigger] call_ensures(
                    T::import,
                    (lent, name, env),
                    result,
                ),
    {
        (**self).import(name, env)
    }

    fn var(&mut self, name: &str) -> (value: Option<String>)
        ensures
            *final(*final(self)) == *final(*old(self)),
            exists|lent: &mut T|
                *lent == **old(self) && *final(lent) == **final(self) && #[trigger] call_ensures(
                    T::var,
                    (lent, name),
                    value,
                ),
    {
        (**self).var(name)
    }

    fn args(&mut self) -> (args: Vec<String>)
        ensures
            *final(*final(self)) == *final(*old(self)),
            exists|lent: &mut T|
                *lent == **old(self) && *final(lent) == **final(self) && #[trigger] call_ensures(
                    T::args,
                    (lent,),
                    args,
                ),
    {
        (**self).args()
    }

    fn file_exists(&self, path: &str) -> (found: bool)
        ensures
            call_ensures(T::file_exists, (&*old(*self), path), found),
    {
        (**self).file_exists(path)
    }

    fn list_dir(&self, path: &str, env: &Env) -> (result: RuntimeResult<Vec<String>>)
        ensures
            call_ensures(T::list_dir, (&*old(*self), path, env), result),
    {
        (**self).list_dir(path, env)
    }

    fn is_file(&self, path: &str, env: &Env) -> (result: RuntimeResult<bool>)
        ensures
            call_ensures(T::is_file, (&*old(*self), path, env), result),
    {
        (**self).is_file(path, env)
    }

    fn read_file(&mut self, path: &str, env: &Env) -> (result: RuntimeResult<Vec<u8>>)
        ensures
            *final(*final(self)) == *final(*old(self)),
            exists|lent: &mut T|
                *lent == **old(self) && *final(lent) == **final(self) && #[trigger] call_ensures(
                    T::read_file,
                    (lent, path, env),
                    result,
                ),
    {
        (**self).read_file(path, env)
    }

    fn write_file(&mut self, path: &str, contents: Vec<u8>, env: &Env) -> (result: RuntimeResult)
        ensures
            *final(*final(self)) == *final(*old(self)),
            exists|lent: &mut T|
                *lent == **old(self) && *final(lent) == **final(self) && #[trigger] call_ensures(
                    T::write_file,
                    (lent, path, contents, env),
                    result,
                ),
    {
        (**self).write_file(path, contents, env)
    }
}

} // verus!
