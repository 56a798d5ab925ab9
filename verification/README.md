# cpan-distribution-build

Build and install a CPAN distribution programmatically, with the decisions proved
correct by Verus.

The library drives the standard build lifecycle of a Perl CPAN distribution that has
already been unpacked into a local directory. It works out whether the distribution uses
`ExtUtils::MakeMaker` (`Makefile.PL`) or `Module::Build` (`Build.PL`), settles which
`META.*` / `MYMETA.*` file counts, reports the prerequisites of each phase, and says
which command each step runs.

## Layout

- `src/` is the library. Apart from the search of `PATH` for `perl` and `make`, it does no
  I/O. An operation asks for one thing at a time
  (`Request`: is a file there, parse this file, run this command) and is told what came
  of it (`Reply`), until it has come to its end (`Step`).
- `src/laws.rs` follows whole operations through given surroundings and proves what
  they come to.
- `app/` performs the requests on the file system.
- `tests/` runs the library in a simulated directory.

## Lifecycle

| Step | Method | `ExtUtils::MakeMaker` | `Module::Build` |
| --- | --- | --- | --- |
| Prerequisites needed before configure | `execute_pre_configure` | - | - |
| Configure | `execute_configure` | `perl Makefile.PL` | `perl Build.PL` |
| Build | `execute_build` | `make` | `perl Build` |
| Test | `execute_test` | `make test` | `perl Build test` |
| Install | `execute_install` | `make install` | `perl Build install` |
| Clean | `execute_clean` | `make clean` | `perl Build clean` |
| Clean up the configure step too | `execute_distclean` | `make distclean` | `perl Build distclean` |

A non-zero exit from any step is reported in its `ExecuteResult`, not as an error. An
error means that a command could not be started, an expected file was missing, or a
metadata file could not be parsed.

## What is trusted

Three small functions call code that is not verified: the search of `PATH` through the
`which` crate (`src/perl.rs`), `String::from_utf8_lossy` and `Path::join`
(`src/os_text.rs`). Their doc comments say what is claimed of them.
