//! Launch policy of the Rust Addin: the decisions a Domino server addin takes
//! between being started by its host and handing control to an embedded JVM.
//!
//! The program around this library talks to the host and to the JVM. The
//! library decides: [`lifecycle`] says which phase follows which and when the
//! host is told that the addin is done, [`launch`] settles directories,
//! environment and delay, [`classpath`] and [`options`] put together what the
//! JVM is started with, [`settings`] holds the host's configuration
//! variables, [`host`] reads what the host's native interface hands over,
//! [`journal`] formats what goes to the host's log, [`error`] names what can
//! end a launch, and [`text`] has the string helpers the others share.
//!
//! Every function is verified against its contract. Six contracts are
//! believed, not proved, because they speak of code outside the library:
//! that of `shell_words::split` in [`options`], that of `glob::glob_with` in
//! [`classpath`], those of `Path::join` and `Path::is_dir` in [`launch`],
//! that of `str::from_utf8` in [`host`], and that of `String::push` in
//! [`text`].

pub mod classpath;
pub mod error;
pub mod host;
pub mod journal;
pub mod launch;
pub mod lifecycle;
pub mod options;
pub mod settings;
pub mod text;
