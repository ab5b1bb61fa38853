use vstd::prelude::*;

verus! {

/// Error type of this crate: a human-readable message.
#[derive(Debug, Clone)]
pub struct Ksj2GpError {
    msg: String,
}

impl View for Ksj2GpError {
    type V = Seq<char>;

    closed spec fn view(&self) -> Seq<char> {
        self.msg@
    }
}

impl Ksj2GpError {
    pub fn new(msg: String) -> (r: Self)
        ensures
            r@ == msg@,
    {
        Ksj2GpError { msg }
    }

    /// The error's message.
    pub fn message(&self) -> (r: &str)
        ensures
            r@ == self@,
    {
        self.msg.as_str()
    }
}

impl From<String> for Ksj2GpError {
    fn from(value: String) -> (r: Self) {
        Ksj2GpError { msg: value }
    }
}

impl vstd::std_specs::convert::FromSpecImpl<String> for Ksj2GpError {
    open spec fn obeys_from_spec() -> bool {
        true
    }

    closed spec fn from_spec(value: String) -> Self {
        Ksj2GpError { msg: value }
    }
}

} // verus!
