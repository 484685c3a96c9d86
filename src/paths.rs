//! Where the configuration, the live slot, the baseline and the profiles live.
use vstd::prelude::*;
use vstd::string::*;

verus! {

/// The wallpaper engine's configuration file.
pub const CONFIG_FILE: &'static str = "C:/Program Files (x86)/Steam/steamapps/common/wallpaper_engine/config.json";

/// The directory that holds every user's home directory.
pub const USERS_DIR: &'static str = "C:/Users/";

/// Below a home directory: the layout directory the widget engine loads
/// this library's layout from.
pub const LIVE_DIR: &'static str = "/AppData/Roaming/Rainmeter/Layouts/wallmeter/";

/// Below a home directory: the widget engine's backup layout file.
pub const BASELINE_FILE: &'static str = "/AppData/Roaming/Rainmeter/Layouts/@Backup/Rainmeter.ini";

/// The name of the layout file inside a layout directory.
pub const LAYOUT_FILE: &'static str = "Rainmeter.ini";

/// Below a home directory: the directory that holds one directory per profile.
pub const PROFILES_DIR: &'static str = "/.wallmeter/profiles/";

/// The name of the file that holds a profile's layout.
pub const PROFILE_FILE: &'static str = "layout.ini";

/// The file locations of one user.
pub struct Paths {
    pub config_file: String,
    pub live_dir: String,
    pub live_slot: String,
    pub baseline: String,
    pub profiles_dir: String,
}

/// The home directory of `user`.
pub open spec fn home_of(user: Seq<char>) -> Seq<char> {
    USERS_DIR@ + user
}

impl Paths {
    /// The locations for `user`, all under that user's home directory but
    /// the configuration file, which the wallpaper engine keeps.
    pub open spec fn locations_of(self, user: Seq<char>) -> bool {
        &&& self.config_file@ == CONFIG_FILE@
        &&& self.live_dir@ == home_of(user) + LIVE_DIR@
        &&& self.live_slot@ == home_of(user) + LIVE_DIR@ + LAYOUT_FILE@
        &&& self.baseline@ == home_of(user) + BASELINE_FILE@
        &&& self.profiles_dir@ == home_of(user) + PROFILES_DIR@
    }

    /// The locations for `user`.
    pub fn for_user(user: &str) -> (r: Paths)
        ensures
            r.locations_of(user@),
    {
        let mut home = String::from_str(USERS_DIR);
        home.append(user);
        let mut live_dir = home.clone();
        live_dir.append(LIVE_DIR);
        let mut live_slot = live_dir.clone();
        live_slot.append(LAYOUT_FILE);
        let mut baseline = home.clone();
        baseline.append(BASELINE_FILE);
        let mut profiles_dir = home.clone();
        profiles_dir.append(PROFILES_DIR);
        Paths {
            config_file: String::from_str(CONFIG_FILE),
            live_dir,
            live_slot,
            baseline,
            profiles_dir,
        }
    }

    /// The locations for the user this process runs as.
    pub fn for_current_user() -> (r: Paths)
        ensures
            exists|user: Seq<char>| r.locations_of(user),
    {
        let user = current_username();
        Paths::for_user(user.as_str())
    }

    /// The directory that holds the profile of wallpaper `id`.
    pub fn profile_dir(&self, id: &str) -> (r: String)
        ensures
            r@ == self.profiles_dir@ + id@ + "/"@,
    {
        let mut r = self.profiles_dir.clone();
        r.append(id);
        r.append("/");
        r
    }

    /// The file that holds the profile of wallpaper `id`.
    pub fn profile_file(&self, id: &str) -> (r: String)
        ensures
            r@ == self.profiles_dir@ + id@ + "/"@ + PROFILE_FILE@,
    {
        let mut r = self.profile_dir(id);
        r.append(PROFILE_FILE);
        r
    }
}

/// Relies on `whoami::username`: the name of the user this process runs as.
/// It depends on the machine, so nothing is promised of it.
#[verifier::external_body]
fn current_username() -> (r: String) {
    whoami::username()
}

} // verus!
