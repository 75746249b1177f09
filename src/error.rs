use vstd::prelude::*;

verus! {

/// The stage at which serving a request failed, with the backend's message.
#[derive(Debug, PartialEq, Eq)]
pub enum BrowseError {
    /// The automation backend could not be reached or refused a new session.
    SessionCreation(String),
    /// Opening a fresh tab failed.
    TabCreation(String),
    /// Making the fresh tab the active window failed.
    WindowSwitch(String),
    /// Loading the requested URL failed.
    Navigation(String),
    /// Reading the rendered document failed.
    Extraction(String),
}

impl BrowseError {
    /// The backend's message carried by the error.
    pub open spec fn message(self) -> String {
        match self {
            BrowseError::SessionCreation(m) => m,
            BrowseError::TabCreation(m) => m,
            BrowseError::WindowSwitch(m) => m,
            BrowseError::Navigation(m) => m,
            BrowseError::Extraction(m) => m,
        }
    }

    /// The words that open the description of the error: they name the failing stage.
    pub open spec fn stage_words(self) -> Seq<char> {
        match self {
            BrowseError::SessionCreation(_) => "WebDriver error: "@,
            BrowseError::TabCreation(_) => "tab creation error: "@,
            BrowseError::WindowSwitch(_) => "window switch error: "@,
            BrowseError::Navigation(_) => "navigation error: "@,
            BrowseError::Extraction(_) => "extraction error: "@,
        }
    }

    /// Human-readable description: the failing stage, then the backend's message.
    pub open spec fn text(self) -> Seq<char> {
        self.stage_words() + self.message()@
    }

    pub fn describe(&self) -> (r: String)
        ensures
            r@ == self.text(),
    {
        let (words, m) = match self {
            BrowseError::SessionCreation(m) => ("WebDriver error: ", m),
            BrowseError::TabCreation(m) => ("tab creation error: ", m),
            BrowseError::WindowSwitch(m) => ("window switch error: ", m),
            BrowseError::Navigation(m) => ("navigation error: ", m),
            BrowseError::Extraction(m) => ("extraction error: ", m),
        };
        let mut r = String::from_str(words);
        r.append(m.as_str());
        r
    }
}

impl Clone for BrowseError {
    fn clone(&self) -> (r: Self)
        ensures
            r == *self,
    {
        match self {
            BrowseError::SessionCreation(m) => BrowseError::SessionCreation(m.clone()),
            BrowseError::TabCreation(m) => BrowseError::TabCreation(m.clone()),
            BrowseError::WindowSwitch(m) => BrowseError::WindowSwitch(m.clone()),
            BrowseError::Navigation(m) => BrowseError::Navigation(m.clone()),
            BrowseError::Extraction(m) => BrowseError::Extraction(m.clone()),
        }
    }
}

} // verus!
