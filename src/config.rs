use vstd::prelude::*;

verus! {

/// The command that puts an image on the clipboard, with its arguments.
///
/// A clipboard read from a configuration always has a command: see `from_parts`.
#[derive(Debug)]
pub struct Clipboard {
    pub cmd: String,
    pub args: Vec<String>,
}

/// The views of a sequence of strings.
pub open spec fn string_views(s: Seq<String>) -> Seq<Seq<char>> {
    s.map_values(|a: String| a@)
}

impl Clipboard {
    pub open spec fn wf(&self) -> bool {
        self.cmd@.len() > 0
    }

    /// A clipboard command `cmd` with the arguments `args`.
    pub fn new(cmd: &str, args: &[&str]) -> (r: Clipboard)
        ensures
            r.cmd@ == cmd@,
            string_views(r.args@) == args@.map_values(|a: &str| a@),
    {
        let mut owned: Vec<String> = Vec::new();
        let mut i: usize = 0;
        while i < args.len()
            invariant
                i <= args@.len(),
                string_views(owned@) == args@.subrange(0, i as int).map_values(|a: &str| a@),
            decreases args@.len() - i,
        {
            let arg: &str = args[i];
            let ghost before = owned@;
            let item = String::from_str(arg);
            owned.push(item);
            proof {
                assert(owned@ == before.push(item));
                assert(string_views(owned@) =~= string_views(before).push(arg@));
                assert(args@.subrange(0, i + 1) =~= args@.subrange(0, i as int).push(args@[i as int]));
                assert(string_views(owned@) =~= args@.subrange(0, i + 1).map_values(|a: &str| a@));
            }
            i = i + 1;
        }
        assert(args@.subrange(0, args@.len() as int) =~= args@);
        Clipboard { cmd: String::from_str(cmd), args: owned }
    }

    /// A clipboard from values read from a configuration: `None` when the
    /// command is empty.
    pub fn from_parts(cmd: String, args: Vec<String>) -> (r: Option<Clipboard>)
        ensures
            cmd@.len() == 0 ==> r is None,
            cmd@.len() > 0 ==> (r matches Some(c) && c.wf() && c.cmd == cmd && c.args == args),
    {
        if cmd.as_str().is_empty() {
            None
        } else {
            Some(Clipboard { cmd, args })
        }
    }

    /// The command.
    pub fn cmd(&self) -> (r: &str)
        ensures
            r@ == self.cmd@,
    {
        self.cmd.as_str()
    }

    /// The arguments of the command.
    pub fn args(&self) -> (r: &[String])
        ensures
            r@ == self.args@,
    {
        self.args.as_slice()
    }
}

/// Settings that apply on X11.
#[derive(Debug)]
pub struct X11 {
    pub clipboard: Clipboard,
}

impl Default for X11 {
    /// `xclip -selection clipboard -target image/png`.
    fn default() -> (r: X11)
        ensures
            r.clipboard.cmd@ == "xclip"@,
            string_views(r.clipboard.args@) == seq![
                "-selection"@,
                "clipboard"@,
                "-target"@,
                "image/png"@,
            ],
    {
        let args: [&str; 4] = ["-selection", "clipboard", "-target", "image/png"];
        let r = X11 { clipboard: Clipboard::new("xclip", &args) };
        assert(args@.map_values(|a: &str| a@) =~= seq![
            "-selection"@,
            "clipboard"@,
            "-target"@,
            "image/png"@,
        ]);
        r
    }
}

/// Settings that apply on Wayland.
#[derive(Debug)]
pub struct Wayland {
    pub clipboard: Clipboard,
}

impl Default for Wayland {
    /// `wl-copy` without arguments.
    fn default() -> (r: Wayland)
        ensures
            r.clipboard.cmd@ == "wl-copy"@,
            r.clipboard.args@.len() == 0,
    {
        let args: [&str; 0] = [];
        let r = Wayland { clipboard: Clipboard::new("wl-copy", &args) };
        assert(string_views(r.clipboard.args@).len() == 0);
        r
    }
}

/// The configuration of the application.
#[derive(Debug)]
pub struct Config {
    pub x11: X11,
    pub wayland: Wayland,
}

impl Default for Config {
    fn default() -> (r: Config)
        ensures
            r.x11.clipboard.cmd@ == "xclip"@,
            r.wayland.clipboard.cmd@ == "wl-copy"@,
            r.wayland.clipboard.args@.len() == 0,
    {
        Config { x11: X11::default(), wayland: Wayland::default() }
    }
}

} // verus!
