//! Scan configuration and argument assembly.
//!
//! `Masscan` accumulates the parameters of one scan through chainable setters
//! and turns them into the exact argument list for the external scanner.

use vstd::prelude::*;

verus! {

/// Configuration for one invocation of the external scanner.
///
/// Every setter consumes the configuration and returns the updated value, so
/// calls can be chained fluently. No validation happens here: malformed values
/// are only detected by the external process itself.
#[derive(Debug, Clone)]
pub struct Masscan {
    /// Invoke the scanner through a privilege-elevation wrapper.
    pub sudo: bool,
    /// Path of the external scanner executable.
    pub system_path: String,
    /// Extra arguments passed through verbatim, in order.
    pub args: Vec<String>,
    /// Target port specification, e.g. `22,8080-8100`.
    pub ports: String,
    /// Target address/range specification, comma-separated.
    pub ranges: String,
    /// Scan rate in packets per second.
    pub rate: String,
    /// Exclusion list; when empty the exclusion flag is omitted entirely.
    pub exclude: String,
}

impl Default for Masscan {
    /// The all-empty configuration: no targets, no extra arguments, no
    /// elevation.
    fn default() -> (r: Masscan)
        ensures
            r.sudo == false,
            r.system_path@ == Seq::<char>::empty(),
            r.args@ == Seq::<String>::empty(),
            r.ports@ == Seq::<char>::empty(),
            r.ranges@ == Seq::<char>::empty(),
            r.rate@ == Seq::<char>::empty(),
            r.exclude@ == Seq::<char>::empty(),
    {
        Masscan {
            sudo: false,
            system_path: String::new(),
            args: Vec::new(),
            ports: String::new(),
            ranges: String::new(),
            rate: String::new(),
            exclude: String::new(),
        }
    }
}

/// The argument list that `assemble_args` emits for a configuration, in the
/// fixed order: ports, ranges, pass-through arguments, rate, the conditional
/// exclusion flag, the wait override, and the JSON-to-stdout output flags.
pub open spec fn spec_args(c: Masscan) -> Seq<Seq<char>> {
    seq!["-p"@, c.ports@, "--range"@, c.ranges@] + c.args@.map_values(|s: String| s@)
        + seq!["--rate"@, c.rate@]
        + (if c.exclude@.len() > 0 {
            seq!["--exclude"@, c.exclude@]
        } else {
            Seq::<Seq<char>>::empty()
        }) + seq!["--wait"@, "0"@, "-oJ"@, "-"@]
}

impl Masscan {
    /// Set the path of the external scanner executable.
    pub fn set_system_path(self, system_path: String) -> (r: Masscan)
        ensures
            r.system_path == system_path,
            r.sudo == self.sudo,
            r.args == self.args,
            r.ports == self.ports,
            r.ranges == self.ranges,
            r.rate == self.rate,
            r.exclude == self.exclude,
    {
        let mut r = self;
        r.system_path = system_path;
        r
    }

    /// Replace the whole pass-through argument list.
    pub fn set_other_args(self, args: Vec<String>) -> (r: Masscan)
        ensures
            r.args == args,
            r.sudo == self.sudo,
            r.system_path == self.system_path,
            r.ports == self.ports,
            r.ranges == self.ranges,
            r.rate == self.rate,
            r.exclude == self.exclude,
    {
        let mut r = self;
        r.args = args;
        r
    }

    /// Set the target port specification.
    pub fn set_ports(self, ports: String) -> (r: Masscan)
        ensures
            r.ports == ports,
            r.sudo == self.sudo,
            r.system_path == self.system_path,
            r.args == self.args,
            r.ranges == self.ranges,
            r.rate == self.rate,
            r.exclude == self.exclude,
    {
        let mut r = self;
        r.ports = ports;
        r
    }

    /// Set the target address/range specification.
    pub fn set_ranges(self, ranges: String) -> (r: Masscan)
        ensures
            r.ranges == ranges,
            r.sudo == self.sudo,
            r.system_path == self.system_path,
            r.args == self.args,
            r.ports == self.ports,
            r.rate == self.rate,
            r.exclude == self.exclude,
    {
        let mut r = self;
        r.ranges = ranges;
        r
    }

    /// Set the scan rate.
    pub fn set_rate(self, rate: String) -> (r: Masscan)
        ensures
            r.rate == rate,
            r.sudo == self.sudo,
            r.system_path == self.system_path,
            r.args == self.args,
            r.ports == self.ports,
            r.ranges == self.ranges,
            r.exclude == self.exclude,
    {
        let mut r = self;
        r.rate = rate;
        r
    }

    /// Set the exclusion list; an empty string keeps the flag out of the
    /// assembled arguments.
    pub fn set_exclude(self, exclude: String) -> (r: Masscan)
        ensures
            r.exclude == exclude,
            r.sudo == self.sudo,
            r.system_path == self.system_path,
            r.args == self.args,
            r.ports == self.ports,
            r.ranges == self.ranges,
            r.rate == self.rate,
    {
        let mut r = self;
        r.exclude = exclude;
        r
    }

    /// Request invocation through the privilege-elevation wrapper.
    pub fn set_sudo(self) -> (r: Masscan)
        ensures
            r.sudo == true,
            r.system_path == self.system_path,
            r.args == self.args,
            r.ports == self.ports,
            r.ranges == self.ranges,
            r.rate == self.rate,
            r.exclude == self.exclude,
    {
        let mut r = self;
        r.sudo = true;
        r
    }

    /// Assemble the argument list for the external scanner.
    ///
    /// The result is exactly `spec_args`: a pure function of the
    /// configuration, so repeated calls yield identical lists.
    pub fn assemble_args(&self) -> (r: Vec<String>)
        ensures
            r@.map_values(|s: String| s@) == spec_args(*self),
    {
        let mut r: Vec<String> = Vec::new();
        r.push("-p".to_owned());
        r.push(self.ports.clone());
        r.push("--range".to_owned());
        r.push(self.ranges.clone());
        let mut i: usize = 0;
        while i < self.args.len()
            invariant
                i <= self.args.len(),
                r@.len() == 4 + i,
                r@[0]@ == "-p"@,
                r@[1]@ == self.ports@,
                r@[2]@ == "--range"@,
                r@[3]@ == self.ranges@,
                forall|j: int| 0 <= j < i ==> r@[4 + j]@ == self.args@[j]@,
            decreases self.args.len() - i,
        {
            r.push(self.args[i].clone());
            i += 1;
        }
        r.push("--rate".to_owned());
        r.push(self.rate.clone());
        if !self.exclude.as_str().is_empty() {
            r.push("--exclude".to_owned());
            r.push(self.exclude.clone());
        }
        r.push("--wait".to_owned());
        r.push("0".to_owned());
        r.push("-oJ".to_owned());
        r.push("-".to_owned());
        proof {
            let m = r@.map_values(|s: String| s@);
            let t = spec_args(*self);
            let n = self.args@.len() as int;
            assert forall|j: int| 0 <= j < m.len() implies m[j] == t[j] by {
                if 4 <= j < 4 + n {
                    assert(m[j] == self.args@[j - 4]@);
                }
            }
            assert(m =~= t);
        }
        r
    }
}

/// Argument assembly is pure: two argument lists built from one configuration
/// are the same list.
pub proof fn lemma_assembly_stable(c: Masscan, a: Seq<Seq<char>>, b: Seq<Seq<char>>)
    requires
        a == spec_args(c),
        b == spec_args(c),
    ensures
        a == b,
{
}

/// Pass-through arguments stand in the assembled list exactly where they were
/// supplied: in order, unmodified, right after the port and range flags.
pub proof fn lemma_extra_args_in_order(c: Masscan)
    ensures
        forall|i: int|
            0 <= i < c.args@.len() ==> #[trigger] spec_args(c)[4 + i] == c.args@.map_values(
                |s: String| s@,
            )[i],
{
}

/// A non-empty exclusion list is emitted as the exclusion flag followed by
/// exactly the configured value, right after the rate value.
pub proof fn lemma_exclude_emitted(c: Masscan)
    requires
        c.exclude@.len() > 0,
    ensures
        spec_args(c)[6 + c.args@.len() as int] == "--exclude"@,
        spec_args(c)[7 + c.args@.len() as int] == c.exclude@,
        spec_args(c).len() == 12 + c.args@.len(),
{
}

/// An empty exclusion list keeps the exclusion flag out of the assembled list
/// altogether, provided no configured value spells that flag itself.
pub proof fn lemma_exclude_omitted(c: Masscan)
    requires
        c.exclude@.len() == 0,
        c.ports@ != "--exclude"@,
        c.ranges@ != "--exclude"@,
        c.rate@ != "--exclude"@,
        forall|i: int| 0 <= i < c.args@.len() ==> c.args@[i]@ != "--exclude"@,
    ensures
        spec_args(c).len() == 10 + c.args@.len(),
        forall|i: int| 0 <= i < spec_args(c).len() ==> spec_args(c)[i] != "--exclude"@,
{
    let t = spec_args(c);
    let n = c.args@.len() as int;
    assert forall|i: int| 0 <= i < t.len() implies t[i] != "--exclude"@ by {
        reveal_strlit("-p");
        reveal_strlit("--range");
        reveal_strlit("--rate");
        reveal_strlit("--wait");
        reveal_strlit("0");
        reveal_strlit("-oJ");
        reveal_strlit("-");
        reveal_strlit("--exclude");
        if 4 <= i < 4 + n {
            assert(t[i] == c.args@[i - 4]@);
        } else if i == 0 {
            assert(t[i] == "-p"@ && "-p"@.len() != "--exclude"@.len());
        } else if i == 2 {
            assert(t[i] == "--range"@ && "--range"@.len() != "--exclude"@.len());
        } else if i == 4 + n {
            assert(t[i] == "--rate"@ && "--rate"@.len() != "--exclude"@.len());
        } else if i == 6 + n {
            assert(t[i] == "--wait"@ && "--wait"@.len() != "--exclude"@.len());
        } else if i == 7 + n {
            assert(t[i] == "0"@ && "0"@.len() != "--exclude"@.len());
        } else if i == 8 + n {
            assert(t[i] == "-oJ"@ && "-oJ"@.len() != "--exclude"@.len());
        } else if i == 9 + n {
            assert(t[i] == "-"@ && "-"@.len() != "--exclude"@.len());
        }
    }
}

} // verus!
