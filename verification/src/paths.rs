//! The full set of platform locations the shell can show, resolved once
//! by the host at startup and held here as plain paths.

use vstd::prelude::*;

verus! {

use vstd::string::StringExecFns;

/// Abstract value of an [`AtlasPath`].
pub struct AtlasPathView {
    pub exe_dir: Seq<char>,
    pub current_dir: Seq<char>,
    pub proj_dir: Seq<char>,
    pub cache_dir: Seq<char>,
    pub state_dir: Option<Seq<char>>,
    pub preference_dir: Seq<char>,
    pub home_dir: Seq<char>,
    pub base_config_dir: Seq<char>,
    pub base_data_dir: Seq<char>,
    pub base_cache_dir: Seq<char>,
    pub runtime_dir: Option<Seq<char>>,
    pub desktop: Option<Seq<char>>,
    pub document: Option<Seq<char>>,
    pub download: Option<Seq<char>>,
    pub audio: Option<Seq<char>>,
    pub picture: Option<Seq<char>>,
    pub video: Option<Seq<char>>,
    pub public: Option<Seq<char>>,
    pub font: Option<Seq<char>>,
    pub template: Option<Seq<char>>,
}

/// The program's base locations and the platform's standard and user
/// directories; optional entries are the ones a platform may not have.
#[derive(Debug, Clone, PartialEq)]
pub struct AtlasPath {
    pub exe_dir: String,
    pub current_dir: String,
    pub proj_dir: String,
    pub cache_dir: String,
    pub state_dir: Option<String>,
    pub preference_dir: String,
    pub home_dir: String,
    pub base_config_dir: String,
    pub base_data_dir: String,
    pub base_cache_dir: String,
    pub runtime_dir: Option<String>,
    pub desktop: Option<String>,
    pub document: Option<String>,
    pub download: Option<String>,
    pub audio: Option<String>,
    pub picture: Option<String>,
    pub video: Option<String>,
    pub public: Option<String>,
    pub font: Option<String>,
    pub template: Option<String>,
}

impl View for AtlasPath {
    type V = AtlasPathView;

    open spec fn view(&self) -> AtlasPathView {
        AtlasPathView {
            exe_dir: self.exe_dir@,
            current_dir: self.current_dir@,
            proj_dir: self.proj_dir@,
            cache_dir: self.cache_dir@,
            state_dir: self.state_dir.deep_view(),
            preference_dir: self.preference_dir@,
            home_dir: self.home_dir@,
            base_config_dir: self.base_config_dir@,
            base_data_dir: self.base_data_dir@,
            base_cache_dir: self.base_cache_dir@,
            runtime_dir: self.runtime_dir.deep_view(),
            desktop: self.desktop.deep_view(),
            document: self.document.deep_view(),
            download: self.download.deep_view(),
            audio: self.audio.deep_view(),
            picture: self.picture.deep_view(),
            video: self.video.deep_view(),
            public: self.public.deep_view(),
            font: self.font.deep_view(),
            template: self.template.deep_view(),
        }
    }
}

/// Zero lines or one labelled line, for an optional directory.
pub open spec fn opt_line(label: Seq<char>, v: Option<Seq<char>>) -> Seq<Seq<char>> {
    match v {
        Some(p) => seq![label + p],
        None => Seq::empty(),
    }
}

/// The lines of the directory listing, in display order: the runtime
/// context, the project's standard directories, the system base
/// directories, the resolved business paths, and whichever user content
/// directories the platform has.
pub open spec fn collect_dirs_model(p: AtlasPathView, config_path: Seq<char>) -> Seq<Seq<char>> {
    seq![
        "--- [ Runtime Context ] ---"@,
        "Executable Dir: "@ + p.exe_dir,
        "Working Dir:    "@ + p.current_dir,
        "--- [ Project Standard Dirs ] ---"@,
        "Data Root:   "@ + p.proj_dir,
        "Cache Root:  "@ + p.cache_dir,
        "Preferences: "@ + p.preference_dir,
    ] + opt_line("State Root:  "@, p.state_dir) + seq![
        "--- [ System Base Dirs ] ---"@,
        "Home:        "@ + p.home_dir,
        "Base Config: "@ + p.base_config_dir,
        "Base Data:   "@ + p.base_data_dir,
        "Base Cache:  "@ + p.base_cache_dir,
    ] + opt_line("Runtime:     "@, p.runtime_dir) + seq![
        "--- [ Resolved Business Paths ] ---"@,
        "Config File: "@ + config_path,
        "Scripts Dir: "@ + p.home_dir + "/script"@,
        "Database Dir: "@ + p.proj_dir + "/db"@,
        "--- [ User Content Dirs ] ---"@,
    ] + opt_line("Downloads: "@, p.download) + opt_line("Documents: "@, p.document) + opt_line(
        "Desktop:   "@,
        p.desktop,
    ) + opt_line("Pictures:  "@, p.picture) + opt_line("Videos:    "@, p.video) + opt_line(
        "Audios:    "@,
        p.audio,
    ) + opt_line("Public:   "@, p.public) + opt_line("Fonts:     "@, p.font) + opt_line(
        "Template:  "@,
        p.template,
    )
}

fn labelled(label: &str, v: &String) -> (r: String)
    ensures
        r@ == label@ + v@,
{
    let mut r = label.to_owned();
    r.append(v.as_str());
    r
}

fn push_opt(out: &mut Vec<String>, label: &str, v: &Option<String>)
    ensures
        final(out).deep_view() == old(out).deep_view() + opt_line(label@, v.deep_view()),
{
    let ghost pre = out.deep_view();
    match v {
        Some(p) => {
            out.push(labelled(label, p));
            proof {
                assert(out.deep_view() =~~= pre + opt_line(label@, v.deep_view()));
            }
        },
        None => {
            proof {
                assert(out.deep_view() =~~= pre + opt_line(label@, v.deep_view()));
            }
        },
    }
}

impl AtlasPath {
    /// Where task scripts live: a fixed directory under the home
    /// directory.
    pub fn get_script_dir(&self) -> (r: String)
        ensures
            r@ == self@.home_dir + "/script"@,
    {
        let mut r = self.home_dir.clone();
        r.append("/script");
        r
    }

    /// Where the embedded database would keep its files: a fixed
    /// directory under the project data root.
    pub fn get_db_dir(&self) -> (r: String)
        ensures
            r@ == self@.proj_dir + "/db"@,
    {
        let mut r = self.proj_dir.clone();
        r.append("/db");
        r
    }

    /// Every resolved location as a labelled line, for the info screen.
    pub fn collect_dirs(&self, config_path: &String) -> (r: Vec<String>)
        ensures
            r.deep_view() == collect_dirs_model(self@, config_path@),
    {
        let mut out: Vec<String> = Vec::new();
        out.push("--- [ Runtime Context ] ---".to_owned());
        out.push(labelled("Executable Dir: ", &self.exe_dir));
        out.push(labelled("Working Dir:    ", &self.current_dir));
        out.push("--- [ Project Standard Dirs ] ---".to_owned());
        out.push(labelled("Data Root:   ", &self.proj_dir));
        out.push(labelled("Cache Root:  ", &self.cache_dir));
        out.push(labelled("Preferences: ", &self.preference_dir));
        let ghost head = seq![
            "--- [ Runtime Context ] ---"@,
            "Executable Dir: "@ + self@.exe_dir,
            "Working Dir:    "@ + self@.current_dir,
            "--- [ Project Standard Dirs ] ---"@,
            "Data Root:   "@ + self@.proj_dir,
            "Cache Root:  "@ + self@.cache_dir,
            "Preferences: "@ + self@.preference_dir,
        ];
        proof {
            assert(out.deep_view() =~~= head);
        }
        push_opt(&mut out, "State Root:  ", &self.state_dir);
        let ghost part1 = head + opt_line("State Root:  "@, self@.state_dir);
        out.push("--- [ System Base Dirs ] ---".to_owned());
        out.push(labelled("Home:        ", &self.home_dir));
        out.push(labelled("Base Config: ", &self.base_config_dir));
        out.push(labelled("Base Data:   ", &self.base_data_dir));
        out.push(labelled("Base Cache:  ", &self.base_cache_dir));
        let ghost part2 = part1 + seq![
            "--- [ System Base Dirs ] ---"@,
            "Home:        "@ + self@.home_dir,
            "Base Config: "@ + self@.base_config_dir,
            "Base Data:   "@ + self@.base_data_dir,
            "Base Cache:  "@ + self@.base_cache_dir,
        ];
        proof {
            assert(out.deep_view() =~~= part2);
        }
        push_opt(&mut out, "Runtime:     ", &self.runtime_dir);
        let ghost part3 = part2 + opt_line("Runtime:     "@, self@.runtime_dir);
        out.push("--- [ Resolved Business Paths ] ---".to_owned());
        out.push(labelled("Config File: ", config_path));
        out.push(labelled("Scripts Dir: ", &self.get_script_dir()));
        out.push(labelled("Database Dir: ", &self.get_db_dir()));
        out.push("--- [ User Content Dirs ] ---".to_owned());
        let ghost part4 = part3 + seq![
            "--- [ Resolved Business Paths ] ---"@,
            "Config File: "@ + config_path@,
            "Scripts Dir: "@ + self@.home_dir + "/script"@,
            "Database Dir: "@ + self@.proj_dir + "/db"@,
            "--- [ User Content Dirs ] ---"@,
        ];
        proof {
            assert(out.deep_view() =~~= part4);
        }
        push_opt(&mut out, "Downloads: ", &self.download);
        push_opt(&mut out, "Documents: ", &self.document);
        push_opt(&mut out, "Desktop:   ", &self.desktop);
        push_opt(&mut out, "Pictures:  ", &self.picture);
        push_opt(&mut out, "Videos:    ", &self.video);
        push_opt(&mut out, "Audios:    ", &self.audio);
        push_opt(&mut out, "Public:   ", &self.public);
        push_opt(&mut out, "Fonts:     ", &self.font);
        push_opt(&mut out, "Template:  ", &self.template);
        proof {
            assert(out.deep_view() =~~= collect_dirs_model(self@, config_path@));
        }
        out
    }
}

} // verus!
