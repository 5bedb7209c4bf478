//! The command line: one optional `--profile <name>` option, every other
//! argument handed on to the launched application.
use vstd::prelude::*;

verus! {

/// The option that selects a profile without asking.
pub const PROFILE_FLAG: &'static str = "--profile";

/// Error for an option given without its value.
pub const MISSING_VALUE: &'static str = "Value expected for '--profile'.";

/// Error for an option given more than once.
pub const REPEATED_PROFILE: &'static str = "'--profile' option is not allowed more than '1' time(s).";

/// What the command line asks for.
#[derive(Debug)]
pub struct Config {
    /// The profile named by `--profile`, if any.
    pub profile: Option<String>,
    /// Every other argument, in order.
    pub others: Vec<String>,
}

/// The text of each string.
pub open spec fn string_views(s: Seq<String>) -> Seq<Seq<char>> {
    s.map_values(|s: String| s@)
}

/// A command line as values.
pub struct ConfigView {
    pub profile: Option<Seq<char>>,
    pub others: Seq<Seq<char>>,
}

impl View for Config {
    type V = ConfigView;

    open spec fn view(&self) -> ConfigView {
        ConfigView {
            profile: match self.profile {
                Some(p) => Some(p@),
                None => None,
            },
            others: string_views(self.others@),
        }
    }
}

/// Reads the arguments after the program name from left to right, starting
/// from what has been read so far.
pub open spec fn scan_args(rest: Seq<Seq<char>>, acc: ConfigView) -> Result<ConfigView, &'static str>
    decreases rest.len(),
{
    if rest.len() == 0 {
        Ok(acc)
    } else if rest[0] == PROFILE_FLAG@ {
        if acc.profile is Some {
            Err(REPEATED_PROFILE)
        } else if rest.len() < 2 {
            Err(MISSING_VALUE)
        } else {
            scan_args(
                rest.subrange(2, rest.len() as int),
                ConfigView { profile: Some(rest[1]), others: acc.others },
            )
        }
    } else {
        scan_args(rest.drop_first(), ConfigView { profile: acc.profile, others: acc.others.push(rest[0]) })
    }
}

/// The configuration a whole command line (program name first) asks for.
pub open spec fn parse_args(args: Seq<Seq<char>>) -> Result<ConfigView, &'static str> {
    let empty = ConfigView { profile: None, others: Seq::empty() };
    if args.len() == 0 {
        Ok(empty)
    } else {
        scan_args(args.drop_first(), empty)
    }
}

/// The outcome of reading a command line, as values.
pub open spec fn result_view(r: Result<Config, &'static str>) -> Result<ConfigView, &'static str> {
    match r {
        Ok(c) => Ok(c@),
        Err(e) => Err(e),
    }
}

fn is_profile_flag(arg: &String) -> (r: bool)
    ensures
        r == (arg@ == PROFILE_FLAG@),
{
    let flag = String::from_str(PROFILE_FLAG);
    *arg == flag
}

impl Config {
    /// Reads the command line `args`, whose first item is the program name.
    pub fn new(args: Vec<String>) -> (r: Result<Config, &'static str>)
        ensures
            result_view(r) == parse_args(string_views(args@)),
    {
        let ghost all = string_views(args@);
        let mut profile: Option<String> = None;
        let mut others: Vec<String> = Vec::new();
        let n = args.len();
        let mut i: usize = if n == 0 { 0 } else { 1 };
        assert(all.len() > 0 ==> all.drop_first() =~= all.subrange(i as int, n as int));
        assert(string_views(Seq::<String>::empty()) =~= Seq::<Seq<char>>::empty());
        assert(all.len() == 0 ==> all.subrange(0, 0) =~= Seq::<Seq<char>>::empty());
        while i < n
            invariant
                n == args.len(),
                all == string_views(args@),
                i <= n,
                parse_args(all) == scan_args(all.subrange(i as int, n as int), Config { profile, others }@),
            decreases n - i,
        {
            let ghost rest = all.subrange(i as int, n as int);
            let arg = &args[i];
            if is_profile_flag(arg) {
                if profile.is_some() {
                    return Err(REPEATED_PROFILE);
                }
                if i + 1 >= n {
                    return Err(MISSING_VALUE);
                }
                assert(rest.subrange(2, rest.len() as int) =~= all.subrange(i + 2, n as int));
                profile = Some(args[i + 1].clone());
                i = i + 2;
            } else {
                let ghost old_others = string_views(others@);
                others.push(arg.clone());
                assert(string_views(others@) =~= old_others.push(rest[0]));
                assert(rest.drop_first() =~= all.subrange(i + 1, n as int));
                i = i + 1;
            }
        }
        assert(all.subrange(i as int, n as int) =~= Seq::<Seq<char>>::empty());
        Ok(Config { profile, others })
    }
}

} // verus!
