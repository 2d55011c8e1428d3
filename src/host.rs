//! Small commands the host application offers its front end.
use vstd::prelude::*;
use vstd::string::*;

verus! {

/// The greeting for `name`.
pub fn greet(name: &str) -> (r: String)
    ensures
        r@ == "Hello, "@ + name@ + "! You've been greeted from Rust!"@,
{
    let r = String::from_str("Hello, ");
    let r = r.concat(name);
    r.concat("! You've been greeted from Rust!")
}

/// One event of a simulated download.
pub enum DownloadEvent {
    Started(String),
    Progress(u32),
    Finished(String),
}

/// The progress steps a simulated download reports, in percent.
pub open spec fn progress_steps() -> Seq<u32> {
    seq![1u32, 15, 50, 80, 100]
}

/// The events of a simulated download of `url`: it starts, reports each
/// progress step in order, and finishes.
pub fn download(url: String) -> (r: Vec<DownloadEvent>)
    ensures
        r@.len() == progress_steps().len() + 2,
        r@[0] == DownloadEvent::Started(url),
        forall|k: int| 0 <= k < progress_steps().len() ==> r@[k + 1] == DownloadEvent::Progress(progress_steps()[k]),
        r@.last() == DownloadEvent::Finished(url),
{
    let steps: Vec<u32> = vec![1, 15, 50, 80, 100];
    assert(steps@ =~= progress_steps());
    let mut r: Vec<DownloadEvent> = Vec::new();
    r.push(DownloadEvent::Started(url.clone()));
    let mut i: usize = 0;
    while i < steps.len()
        invariant
            steps@ == progress_steps(),
            i <= steps@.len(),
            r@.len() == i + 1,
            r@[0] == DownloadEvent::Started(url),
            forall|k: int| 0 <= k < i ==> r@[k + 1] == DownloadEvent::Progress(progress_steps()[k]),
        decreases steps@.len() - i,
    {
        r.push(DownloadEvent::Progress(steps[i]));
        i = i + 1;
    }
    r.push(DownloadEvent::Finished(url));
    r
}

} // verus!
