//! Registration of the automatic start under the current user's `Run` key.

use vstd::prelude::*;

use crate::text::{chars_of, str_eq, string_from};

verus! {

/// The current user's automatic start registry key.
pub const RUN_KEY: &'static str = "Software\\Microsoft\\Windows\\CurrentVersion\\Run";

/// The registry value name of the product's automatic start.
pub const VALUE_NAME: &'static str = "CodexUsageMonitor";

/// Why no automatic start command can be built for an executable path.
#[derive(Clone, Copy, Debug, PartialEq, Eq, Structural)]
pub enum AutostartCommandError {
    /// The path is not valid Unicode.
    NotUnicode,
    /// The path holds a quote or a NUL, which would break the quoting.
    UnsafeCharacter,
}

/// The start command of an executable: its path in double quotes, then
/// `--startup`.
pub open spec fn startup_command(path: Seq<char>) -> Seq<char> {
    "\""@ + path + "\" --startup"@
}

/// The start command of an executable path given as text (`Path::to_str`),
/// which is `None` when the path is not Unicode.
pub open spec fn command_for(path: Option<Seq<char>>) -> Result<Seq<char>, AutostartCommandError> {
    match path {
        None => Err(AutostartCommandError::NotUnicode),
        Some(p) => if p.contains('"') || p.contains('\0') {
            Err(AutostartCommandError::UnsafeCharacter)
        } else {
            Ok(startup_command(p))
        },
    }
}

pub open spec fn text_view(path: Option<&str>) -> Option<Seq<char>> {
    match path {
        Some(p) => Some(p@),
        None => None,
    }
}

pub open spec fn command_view(r: Result<String, AutostartCommandError>) -> Result<Seq<char>, AutostartCommandError> {
    match r {
        Ok(s) => Ok(s@),
        Err(e) => Err(e),
    }
}

/// The quoted start command of an executable, `"<path>" --startup`, or the
/// reason why there is none; `executable` is the path as text.
pub fn autostart_command(executable: Option<&str>) -> (r: Result<String, AutostartCommandError>)
    ensures
        command_view(r) == command_for(text_view(executable)),
{
    let path = match executable {
        Some(p) => p,
        None => return Err(AutostartCommandError::NotUnicode),
    };
    assert(text_view(executable) == Some(path@));
    let chars = chars_of(path);
    let mut i: usize = 0;
    while i < chars.len()
        invariant
            chars@ == path@,
            text_view(executable) == Some(path@),
            i <= chars.len(),
            forall|j: int| 0 <= j < i ==> chars@[j] != '"' && chars@[j] != '\0',
        decreases chars.len() - i,
    {
        if chars[i] == '"' || chars[i] == '\0' {
            proof {
                assert(path@[i as int] == chars@[i as int]);
                if path@[i as int] == '"' {
                    assert(path@.contains('"'));
                } else {
                    assert(path@.contains('\0'));
                }
            }
            return Err(AutostartCommandError::UnsafeCharacter);
        }
        i += 1;
    }
    let mut command = string_from("\"");
    command.append(path);
    command.append("\" --startup");
    Ok(command)
}

/// One registry operation of an automatic start backend, with its result.
pub enum RegistryCall<E> {
    Write(Seq<char>, Result<(), E>),
    Read(Result<Option<Seq<char>>, E>),
    Remove(Result<(), E>),
}

pub open spec fn read_view<E>(r: Result<Option<String>, E>) -> Result<Option<Seq<char>>, E> {
    match r {
        Ok(Some(s)) => Ok(Some(s@)),
        Ok(None) => Ok(None),
        Err(e) => Err(e),
    }
}

/// The storage of the automatic start command. Each operation records
/// itself, with its result, at the end of `calls`.
pub trait RegistryBackend {
    /// The error of a failed registry operation.
    type Error;

    /// The operations performed so far, in order.
    spec fn calls(&self) -> Seq<RegistryCall<Self::Error>>;

    /// Stores the start command.
    fn write(&mut self, value: &str) -> (r: Result<(), Self::Error>)
        ensures
            final(self).calls() == old(self).calls().push(RegistryCall::Write(value@, r)),
    ;

    /// Reads the stored start command, `None` when there is none.
    fn read(&mut self) -> (r: Result<Option<String>, Self::Error>)
        ensures
            final(self).calls() == old(self).calls().push(RegistryCall::Read(read_view(r))),
    ;

    /// Removes the start command.
    fn remove(&mut self) -> (r: Result<(), Self::Error>)
        ensures
            final(self).calls() == old(self).calls().push(RegistryCall::Remove(r)),
    ;
}

/// Why changing the automatic start failed.
#[derive(Debug)]
pub enum AutostartError<E> {
    /// A registry operation failed.
    Backend(E),
    /// No start command can be built for the executable.
    Command(AutostartCommandError),
    /// The command read back differs from the one written.
    VerificationFailed,
}

pub open spec fn backend_outcome<E>(r: Result<(), E>) -> Result<(), AutostartError<E>> {
    match r {
        Ok(()) => Ok(()),
        Err(e) => Err(AutostartError::Backend(e)),
    }
}

/// What changing the automatic start did: disabling removes the value;
/// enabling writes the start command and reads it back, and succeeds only
/// when exactly that command was read; a path without a command touches
/// nothing.
pub open spec fn autostart_run<E>(
    before: Seq<RegistryCall<E>>,
    after: Seq<RegistryCall<E>>,
    enabled: bool,
    path: Option<Seq<char>>,
    r: Result<(), AutostartError<E>>,
) -> bool {
    let n = before.len() as int;
    &&& after.len() >= before.len()
    &&& after.take(n) == before
    &&& if !enabled {
        &&& after.len() == n + 1
        &&& match after[n] {
            RegistryCall::Remove(removed) => r == backend_outcome(removed),
            _ => false,
        }
    } else {
        match command_for(path) {
            Err(e) => after == before && r == Err::<(), AutostartError<E>>(AutostartError::Command(e)),
            Ok(command) => after.len() > n && match after[n] {
                RegistryCall::Write(written, Err(e)) => written == command && after.len() == n + 1
                    && r == Err::<(), AutostartError<E>>(AutostartError::Backend(e)),
                RegistryCall::Write(written, Ok(())) => written == command && after.len() == n + 2 && match after[n + 1] {
                    RegistryCall::Read(Err(e)) => r == Err::<(), AutostartError<E>>(AutostartError::Backend(e)),
                    RegistryCall::Read(Ok(stored)) => r == if stored == Some(command) {
                        Ok::<(), AutostartError<E>>(())
                    } else {
                        Err(AutostartError::VerificationFailed)
                    },
                    _ => false,
                },
                _ => false,
            },
        }
    }
}

/// Changes the automatic start and, when enabling it, verifies the exact
/// value read back; `executable` is the path as text.
pub fn set_autostart<B: RegistryBackend>(backend: &mut B, enabled: bool, executable: Option<&str>) -> (r: Result<(), AutostartError<B::Error>>)
    ensures
        autostart_run(old(backend).calls(), final(backend).calls(), enabled, text_view(executable), r),
{
    let ghost before = backend.calls();
    if !enabled {
        let removed = backend.remove();
        assert(backend.calls().take(before.len() as int) =~= before);
        return match removed {
            Ok(()) => Ok(()),
            Err(e) => Err(AutostartError::Backend(e)),
        };
    }
    let command = match autostart_command(executable) {
        Ok(c) => c,
        Err(e) => {
            assert(backend.calls().take(before.len() as int) =~= before);
            return Err(AutostartError::Command(e));
        },
    };
    let written = backend.write(command.as_str());
    let ghost middle = backend.calls();
    match written {
        Err(e) => {
            assert(backend.calls().take(before.len() as int) =~= before);
            return Err(AutostartError::Backend(e));
        },
        Ok(()) => {},
    }
    let read = backend.read();
    assert(backend.calls().take(before.len() as int) =~= before);
    assert(backend.calls()[before.len() as int] == middle[before.len() as int]);
    match read {
        Err(e) => Err(AutostartError::Backend(e)),
        Ok(stored) => {
            let same = match &stored {
                Some(s) => str_eq(s.as_str(), command.as_str()),
                None => false,
            };
            if same {
                Ok(())
            } else {
                Err(AutostartError::VerificationFailed)
            }
        },
    }
}

} // verus!
