//! The colour themes that ship with the program.
//!
//! A theme is a name and a block of text in the renderer's own format; the
//! text is passed on as it is.

use vstd::prelude::*;

verus! {

/// A named theme.
pub struct Theme {
    pub name: String,
    pub text: String,
}

/// The text of the theme `darkmode`.
pub open spec fn darkmode_text() -> Seq<char> {
    "shadow = false\nborders = \"simple\"\n\n[colors]\nbackground = \"black\"\nview = \"black\"\nprimary = \"white\"\nsecondary = \"cyan\"\ntertiary = \"light black\"\ntitle_primary = \"light yellow\"\ntitle_secondary = \"yellow\"\nhighlight = \"blue\"\nhighlight_inactive = \"light black\"\n"@
}

/// The text of the theme `lightmode`.
pub open spec fn lightmode_text() -> Seq<char> {
    "shadow = true\nborders = \"simple\"\n\n[colors]\nbackground = \"blue\"\nview = \"white\"\nprimary = \"black\"\nsecondary = \"blue\"\ntertiary = \"light white\"\ntitle_primary = \"red\"\ntitle_secondary = \"light red\"\nhighlight = \"red\"\nhighlight_inactive = \"blue\"\n"@
}

/// The text of the built-in theme of the given name, if there is one.
pub open spec fn builtin_theme(name: Seq<char>) -> Option<Seq<char>> {
    if name == "darkmode"@ {
        Some(darkmode_text())
    } else if name == "lightmode"@ {
        Some(lightmode_text())
    } else {
        None
    }
}

/// Whether a list holds exactly the built-in themes.
pub open spec fn holds_builtin(themes: Seq<Theme>) -> bool {
    &&& themes.len() == 2
    &&& themes[0].name@ == "darkmode"@
    &&& themes[0].text@ == darkmode_text()
    &&& themes[1].name@ == "lightmode"@
    &&& themes[1].text@ == lightmode_text()
}

/// The built-in themes.
pub fn builtin_themes() -> (r: Vec<Theme>)
    ensures
        holds_builtin(r@),
{
    let dark = Theme {
        name: "darkmode".to_owned(),
        text: "shadow = false\nborders = \"simple\"\n\n[colors]\nbackground = \"black\"\nview = \"black\"\nprimary = \"white\"\nsecondary = \"cyan\"\ntertiary = \"light black\"\ntitle_primary = \"light yellow\"\ntitle_secondary = \"yellow\"\nhighlight = \"blue\"\nhighlight_inactive = \"light black\"\n".to_owned(),
    };
    let light = Theme {
        name: "lightmode".to_owned(),
        text: "shadow = true\nborders = \"simple\"\n\n[colors]\nbackground = \"blue\"\nview = \"white\"\nprimary = \"black\"\nsecondary = \"blue\"\ntertiary = \"light white\"\ntitle_primary = \"red\"\ntitle_secondary = \"light red\"\nhighlight = \"red\"\nhighlight_inactive = \"blue\"\n".to_owned(),
    };
    let mut themes: Vec<Theme> = Vec::new();
    themes.push(dark);
    themes.push(light);
    themes
}

/// The position of the first theme of the given name.
pub fn find_theme(themes: &Vec<Theme>, name: &String) -> (r: Option<usize>)
    ensures
        r is Some ==> r.unwrap() < themes@.len() && themes@[r.unwrap() as int].name@ == name@,
        r is Some ==> forall|j: int| 0 <= j < r.unwrap() ==> (#[trigger] themes@[j]).name@ != name@,
        r is None ==> forall|j: int| 0 <= j < themes@.len() ==> (#[trigger] themes@[j]).name@ != name@,
{
    let mut i: usize = 0;
    while i < themes.len()
        invariant
            i <= themes@.len(),
            forall|j: int| 0 <= j < i ==> (#[trigger] themes@[j]).name@ != name@,
        decreases themes@.len() - i,
    {
        if themes[i].name == *name {
            return Some(i);
        }
        i += 1;
    }
    None
}

/// The two built-in themes are there under their names, neither is empty,
/// and they differ; there is none under any other name.
pub proof fn builtin_themes_differ()
    ensures
        builtin_theme("darkmode"@) == Some(darkmode_text()),
        builtin_theme("lightmode"@) == Some(lightmode_text()),
        darkmode_text().len() > 0,
        lightmode_text().len() > 0,
        darkmode_text() != lightmode_text(),
        forall|name: Seq<char>|
            name != "darkmode"@ && name != "lightmode"@ ==> builtin_theme(name) is None,
{
    reveal_strlit("darkmode");
    reveal_strlit("lightmode");
    reveal_strlit(
        "shadow = false\nborders = \"simple\"\n\n[colors]\nbackground = \"black\"\nview = \"black\"\nprimary = \"white\"\nsecondary = \"cyan\"\ntertiary = \"light black\"\ntitle_primary = \"light yellow\"\ntitle_secondary = \"yellow\"\nhighlight = \"blue\"\nhighlight_inactive = \"light black\"\n",
    );
    reveal_strlit(
        "shadow = true\nborders = \"simple\"\n\n[colors]\nbackground = \"blue\"\nview = \"white\"\nprimary = \"black\"\nsecondary = \"blue\"\ntertiary = \"light white\"\ntitle_primary = \"red\"\ntitle_secondary = \"light red\"\nhighlight = \"red\"\nhighlight_inactive = \"blue\"\n",
    );
    assert("darkmode"@.len() != "lightmode"@.len());
    assert(darkmode_text()[9] == 'f');
    assert(lightmode_text()[9] == 't');
}

} // verus!
