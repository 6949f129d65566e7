use vstd::prelude::*;
use crate::supervisor::{Supervisor, initial};

verus! {

/// The locker to run: its executable and the arguments handed to it unchanged.
#[derive(Clone, Debug, PartialEq, Eq)]
pub struct LockerSpec {
    pub executable: String,
    pub args: Vec<String>,
}

/// What the command line asks for.
#[derive(Clone, Debug, PartialEq, Eq)]
pub enum Invocation {
    /// Print the usage text and exit with status 0.
    Usage,
    /// Report the hint and start nothing.
    Check,
    /// Run the locker while the hint is asserted.
    Lock { force: bool, locker: LockerSpec },
}

/// Decides the invocation from the flags that were given and the free
/// arguments, in order. Help wins over everything; check mode ignores the
/// free arguments; otherwise the first free argument is the locker and the
/// rest are its arguments, and without one the usage text is shown.
pub fn plan_invocation(help: bool, check: bool, force: bool, free: Vec<String>) -> (r: Invocation)
    ensures
        help ==> r is Usage,
        !help && check ==> r is Check,
        !help && !check && free@.len() == 0 ==> r is Usage,
        !help && !check && free@.len() > 0 ==> r is Lock && r->Lock_force == force
            && r->Lock_locker.executable == free@[0] && r->Lock_locker.args@ == free@.subrange(
            1,
            free@.len() as int,
        ),
{
    if help {
        Invocation::Usage
    } else if check {
        Invocation::Check
    } else if free.len() == 0 {
        Invocation::Usage
    } else {
        let mut args = free;
        let executable = args.remove(0);
        assert(args@ =~= free@.subrange(1, free@.len() as int));
        Invocation::Lock { force, locker: LockerSpec { executable, args } }
    }
}

impl Invocation {
    /// The supervisor that carries out the invocation, if it needs one.
    pub fn supervisor(&self) -> (r: Option<Supervisor>)
        ensures
            match *self {
                Invocation::Usage => r is None,
                Invocation::Check => r == Some(initial(true, false)),
                Invocation::Lock { force, .. } => r == Some(initial(false, force)),
            },
    {
        match self {
            Invocation::Usage => None,
            Invocation::Check => Some(Supervisor::new(true, false)),
            Invocation::Lock { force, .. } => Some(Supervisor::new(false, *force)),
        }
    }

    /// The locker to run, if the invocation runs one.
    pub fn locker(&self) -> (r: Option<&LockerSpec>)
        ensures
            match *self {
                Invocation::Lock { locker, .. } => r == Some(&locker),
                _ => r is None,
            },
    {
        match self {
            Invocation::Lock { locker, .. } => Some(locker),
            _ => None,
        }
    }
}

} // verus!
