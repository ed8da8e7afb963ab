//! The description of the application that is registered as a handler.

use vstd::prelude::*;

verus! {

/// An application that can be registered as the handler of URI schemes.
///
/// The descriptor is plain data: nothing here validates it. Both `name` and
/// `executable` are meant to be non-empty; whether their content is usable is for
/// the operating system to say when the registration is written.
#[derive(Debug, PartialEq, Eq)]
pub struct App {
    /// Human-readable name of the application.
    pub name: String,
    /// The command that launches the application; the URI is passed to it
    /// as its one argument.
    pub executable: String,
    /// Where the application's icon is found, if it has one.
    pub icon: Option<String>,
}

/// An [`App`] as mathematical text.
pub struct AppView {
    pub name: Seq<char>,
    pub executable: Seq<char>,
    pub icon: Option<Seq<char>>,
}

impl View for App {
    type V = AppView;

    open spec fn view(&self) -> AppView {
        AppView {
            name: self.name@,
            executable: self.executable@,
            icon: match self.icon {
                Some(icon) => Some(icon@),
                None => None,
            },
        }
    }
}

impl App {
    /// Describes an application by its name, its launch command and,
    /// optionally, its icon.
    pub fn new(name: String, executable: String, icon: Option<String>) -> (app: App)
        ensures
            app.name == name,
            app.executable == executable,
            app.icon == icon,
    {
        App { name, executable, icon }
    }
}

} // verus!
