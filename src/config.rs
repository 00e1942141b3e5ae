//! The tool's settings: the template for generated note names and the
//! external editor.
use vstd::prelude::*;

verus! {

/// What a configuration holds, as character sequences.
pub struct ConfigView {
    pub name_template: Seq<char>,
    pub editor: Seq<char>,
}

/// The settings as they are stored.
pub struct Options {
    pub name_template: String,
    pub editor: String,
}

/// The tool's configuration.
pub struct Config {
    options: Options,
}

impl View for Config {
    type V = ConfigView;

    closed spec fn view(&self) -> ConfigView {
        ConfigView { name_template: self.options.name_template@, editor: self.options.editor@ }
    }
}

/// The template a new configuration starts with.
pub open spec fn default_template() -> Seq<char> {
    seq!['N', 'o', 't', 'e', '&', 'i']
}

/// The editor a new configuration starts with.
pub open spec fn default_editor() -> Seq<char> {
    seq!['n', 'a', 'n', 'o']
}

impl Default for Config {
    fn default() -> (r: Config)
        ensures
            r@ == (ConfigView { name_template: default_template(), editor: default_editor() }),
    {
        let template = "Note&i";
        let editor = "nano";
        proof {
            reveal_strlit("Note&i");
            reveal_strlit("nano");
        }
        let r = Config::new(template, editor);
        assert(r@.name_template =~= default_template());
        assert(r@.editor =~= default_editor());
        r
    }
}

impl Config {
    /// A configuration with the given template and editor.
    pub fn new(name_template: &str, editor: &str) -> (r: Config)
        ensures
            r@ == (ConfigView { name_template: name_template@, editor: editor@ }),
    {
        Config {
            options: Options {
                name_template: String::from_str(name_template),
                editor: String::from_str(editor),
            },
        }
    }

    pub fn get_template(&self) -> (r: String)
        ensures
            r@ == self@.name_template,
    {
        self.options.name_template.clone()
    }

    pub fn set_template(&mut self, new_template: &str)
        ensures
            final(self)@ == (ConfigView { name_template: new_template@, ..old(self)@ }),
    {
        self.options.name_template = String::from_str(new_template);
    }

    pub fn get_editor(&self) -> (r: String)
        ensures
            r@ == self@.editor,
    {
        self.options.editor.clone()
    }

    pub fn set_editor(&mut self, editor: &str)
        ensures
            final(self)@ == (ConfigView { editor: editor@, ..old(self)@ }),
    {
        self.options.editor = String::from_str(editor);
    }
}

} // verus!
