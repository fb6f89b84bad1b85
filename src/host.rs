use vstd::prelude::*;

verus! {

/// The operating system family that a command runs on; it decides which
/// interpreter or utility a command uses.
#[derive(Clone, Copy, Debug, PartialEq, Eq, Structural)]
pub enum Platform {
    Windows,
    MacOs,
    Linux,
    Other,
}

/// A program to start and the arguments to hand it, as the host should
/// spawn it.
#[derive(Clone, Debug)]
pub struct Invocation {
    pub program: String,
    pub args: Vec<String>,
}

impl Invocation {
    /// This invocation starts `program` with exactly the arguments `args`.
    pub open spec fn runs(self, program: Seq<char>, args: Seq<Seq<char>>) -> bool {
        &&& self.program@ == program
        &&& self.args@.len() == args.len()
        &&& forall|i: int| 0 <= i < args.len() ==> #[trigger] self.args@[i]@ == args[i]
    }

    /// Builds an invocation of `program` with the arguments `args`.
    pub fn new(program: &str, args: &[&str]) -> (r: Invocation)
        ensures
            r.runs(program@, args@.map_values(|a: &str| a@)),
    {
        let mut v: Vec<String> = Vec::new();
        let mut i: usize = 0;
        while i < args.len()
            invariant
                i <= args@.len(),
                v@.len() == i,
                forall|k: int| 0 <= k < i ==> #[trigger] v@[k]@ == args@[k]@,
            decreases args@.len() - i,
        {
            v.push(String::from_str(args[i]));
            i = i + 1;
        }
        Invocation { program: String::from_str(program), args: v }
    }
}

/// What the host reports after trying to run an invocation to completion.
#[derive(Clone, Debug)]
pub enum CommandOutput {
    /// The process ran; `success` tells whether it exited with status zero.
    Completed { success: bool, stdout: Vec<u8>, stderr: Vec<u8> },
    /// The process could not be started; `message` says why.
    SpawnFailed { message: String },
}

/// The characters of a command's textual result.
pub open spec fn text_result(r: Result<String, String>) -> Result<Seq<char>, Seq<char>> {
    match r {
        Ok(s) => Ok(s@),
        Err(e) => Err(e@),
    }
}

} // verus!
