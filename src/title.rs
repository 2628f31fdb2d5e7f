//! Search scopes and the header that describes the active one.
use vstd::prelude::*;

verus! {

/// Where history is searched, from the narrowest scope to the broadest.
#[derive(Clone, Copy, Debug, PartialEq, Eq, Structural, PartialOrd, Ord, Hash)]
pub enum Location {
    Session,
    Directory,
    Machine,
    Everywhere,
}

/// How broad a scope is: the current session is the narrowest.
pub open spec fn breadth(l: Location) -> nat {
    match l {
        Location::Session => 0,
        Location::Directory => 1,
        Location::Machine => 2,
        Location::Everywhere => 3,
    }
}

/// The short name of a scope.
pub open spec fn location_label(l: Location) -> Seq<char> {
    match l {
        Location::Session => "Session location history"@,
        Location::Directory => "Directory location history"@,
        Location::Machine => "Machine location history"@,
        Location::Everywhere => "Everywhere"@,
    }
}

/// The diagram of the four scopes, with the active one drawn in heavy lines.
pub open spec fn location_header(l: Location) -> Seq<char> {
    match l {
        Location::Session => SESSION_HEADER@,
        Location::Directory => DIRECTORY_HEADER@,
        Location::Machine => MACHINE_HEADER@,
        Location::Everywhere => EVERYWHERE_HEADER@,
    }
}

pub const SESSION_HEADER: &'static str = " ┏━━━━━━━━━┱───────────┬──────┬────────────┐
 ┃ Session ┃ Directory │ Host │ Everywhere │ C-g: Toggle group, C-s: Lock Session, C-d: Lock Dir
━┛         ┗━━━━━━━━━━━┷━━━━━━┷━━━━━━━━━━━━┷━━━━━━━━━━━━━━━━━━━━━━━━━━━━━━━━━━━━━━━━━━━━━━━━━━━";

pub const DIRECTORY_HEADER: &'static str = " ┌─────────┲━━━━━━━━━━━┱──────┬────────────┐
 │ Session ┃ Directory ┃ Host │ Everywhere │ C-g: Toggle group, C-s: Lock Session, C-d: Lock Dir
━┷━━━━━━━━━┛           ┗━━━━━━┷━━━━━━━━━━━━┷━━━━━━━━━━━━━━━━━━━━━━━━━━━━━━━━━━━━━━━━━━━━━━━━━━━";

pub const MACHINE_HEADER: &'static str = " ┌─────────┬───────────┲━━━━━━┱────────────┐
 │ Session │ Directory ┃ Host ┃ Everywhere │ C-g: Toggle group, C-s: Lock Session, C-d: Lock Dir
━┷━━━━━━━━━┷━━━━━━━━━━━┛      ┗━━━━━━━━━━━━┷━━━━━━━━━━━━━━━━━━━━━━━━━━━━━━━━━━━━━━━━━━━━━━━━━━━";

pub const EVERYWHERE_HEADER: &'static str = " ┌─────────┬───────────┬──────┲━━━━━━━━━━━━┓
 │ Session │ Directory │ Host ┃ Everywhere ┃ C-g: Toggle group, C-s: Lock Session, C-d: Lock Dir
━┷━━━━━━━━━┷━━━━━━━━━━━┷━━━━━━┛            ┗━━━━━━━━━━━━━━━━━━━━━━━━━━━━━━━━━━━━━━━━━━━━━━━━━━━";

impl Location {
    /// Whether `self` is a narrower scope than `other`.
    pub fn is_narrower_than(&self, other: &Location) -> (r: bool)
        ensures
            r == (breadth(*self) < breadth(*other)),
    {
        self.rank() < other.rank()
    }

    fn rank(&self) -> (r: u8)
        ensures
            r as nat == breadth(*self),
    {
        match self {
            Location::Session => 0,
            Location::Directory => 1,
            Location::Machine => 2,
            Location::Everywhere => 3,
        }
    }

    /// The short name of the scope.
    pub fn label(&self) -> (r: &'static str)
        ensures
            r@ == location_label(*self),
    {
        match self {
            Location::Session => "Session location history",
            Location::Directory => "Directory location history",
            Location::Machine => "Machine location history",
            Location::Everywhere => "Everywhere",
        }
    }

    /// The scope diagram with this scope highlighted.
    pub fn header(&self) -> (r: &'static str)
        ensures
            r@ == location_header(*self),
    {
        match self {
            Location::Session => SESSION_HEADER,
            Location::Directory => DIRECTORY_HEADER,
            Location::Machine => MACHINE_HEADER,
            Location::Everywhere => EVERYWHERE_HEADER,
        }
    }
}

/// What the header shows of its surroundings: the current session, directory
/// and host, and the session and directory the search is locked to, if any.
pub struct TitleContext {
    pub session_id: String,
    pub dir: String,
    pub host: String,
    pub focus_session: Option<String>,
    pub focus_dir: Option<String>,
}

/// What the scope is narrowed to: the session, the directory or the host;
/// nothing for everywhere.
pub open spec fn extra_info_text(l: Location, env: TitleContext) -> Seq<char> {
    match l {
        Location::Session => env.session_id@,
        Location::Directory => env.dir@,
        Location::Machine => env.host@,
        Location::Everywhere => Seq::empty(),
    }
}

/// `title: value ` for a lock that is set, nothing otherwise.
pub open spec fn focus_text(title: Seq<char>, info: Option<String>) -> Seq<char> {
    match info {
        Some(v) => title + ": "@ + v@ + " "@,
        None => Seq::empty(),
    }
}

/// The header: scope name, what it is narrowed to, the locks, then the diagram.
pub open spec fn title_text(l: Location, env: TitleContext) -> Seq<char> {
    location_label(l) + " "@ + extra_info_text(l, env)
        + focus_text("Session"@, env.focus_session) + focus_text("Directory"@, env.focus_dir)
        + "\n"@ + location_header(l) + "\n"@
}

/// What the scope is narrowed to.
pub fn extra_info(location: &Location, env: &TitleContext) -> (r: String)
    ensures
        r@ == extra_info_text(*location, *env),
{
    match location {
        Location::Session => env.session_id.clone(),
        Location::Directory => env.dir.clone(),
        Location::Machine => env.host.clone(),
        Location::Everywhere => String::new(),
    }
}

/// `title: value ` when a lock is set, else empty.
pub fn focus_line(title: &str, info: &Option<String>) -> (r: String)
    ensures
        r@ == focus_text(title@, *info),
{
    match info {
        Some(v) => {
            let mut r = String::from_str(title);
            r.append(": ");
            r.append(v.as_str());
            r.append(" ");
            r
        },
        None => String::new(),
    }
}

/// The header shown above the list for the active scope.
pub fn generate_title(location: &Location, env: &TitleContext) -> (r: String)
    ensures
        r@ == title_text(*location, *env),
{
    let info = extra_info(location, env);
    let focus_session = focus_line("Session", &env.focus_session);
    let focus_dir = focus_line("Directory", &env.focus_dir);
    let mut title = String::from_str(location.label());
    title.append(" ");
    title.append(info.as_str());
    title.append(focus_session.as_str());
    title.append(focus_dir.as_str());
    title.append("\n");
    title.append(location.header());
    title.append("\n");
    assert(title@ =~= title_text(*location, *env));
    title
}

/// The session header leads with the session scope's name, not with
/// "Everywhere"; the everywhere header leads with "Everywhere".
pub proof fn lemma_title_leading_label(env: TitleContext)
    ensures
        "Session location history"@.is_prefix_of(title_text(Location::Session, env)),
        !"Everywhere"@.is_prefix_of(title_text(Location::Session, env)),
        "Everywhere"@.is_prefix_of(title_text(Location::Everywhere, env)),
{
    reveal_strlit("Session location history");
    reveal_strlit("Everywhere");
    let s = title_text(Location::Session, env);
    let e = title_text(Location::Everywhere, env);
    assert(s[0] == 'S');
    assert("Everywhere"@[0] == 'E');
    assert(s.subrange(0, 24) =~= "Session location history"@);
    assert(e.subrange(0, 10) =~= "Everywhere"@);
}

/// The everywhere header shows neither the session, the directory nor the
/// host: two contexts that differ only there give the same header.
pub proof fn lemma_everywhere_omits_location(a: TitleContext, b: TitleContext)
    requires
        a.focus_session == b.focus_session,
        a.focus_dir == b.focus_dir,
    ensures
        title_text(Location::Everywhere, a) == title_text(Location::Everywhere, b),
        extra_info_text(Location::Everywhere, a).len() == 0,
{
}

} // verus!
