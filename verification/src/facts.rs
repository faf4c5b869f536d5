//! From the answers of the host's queries to the lines of the facts column.

use crate::format::{
    format_memory, format_uptime, lemma_memory_text_is_escape_free,
    lemma_uptime_text_is_escape_free, memory_text, uptime_text, MemoryStatus,
};
use crate::line::{models, InfoLine, Line};
use crate::paint::ESCAPE;
use crate::text::lemma_concat_lacks;
use vstd::prelude::*;
use vstd::string::*;

verus! {

/// What the host answered, query by query. A query that can fail holds
/// either its answer or the message of its failure.
#[derive(Debug)]
pub struct HostFacts {
    /// The name of the current user.
    pub username: String,
    /// The name of the host.
    pub hostname: String,
    /// The name of the operating system distribution.
    pub distro: String,
    /// The processor architecture.
    pub arch: String,
    /// The kernel version, where the host gave one.
    pub kernel: Option<String>,
    /// The time since boot in seconds, or the failure's message.
    pub uptime: Result<u64, String>,
    /// The brand string of the processor.
    pub cpu: String,
    /// The names of the graphics devices, in the order in which they were found.
    pub gpus: Vec<String>,
    /// The two readings of memory, or the failure's message.
    pub memory: Result<MemoryStatus, String>,
}

/// The mathematical model of [`HostFacts`]: the same answers, with every
/// string as its sequence of characters and every number unbounded.
pub struct Facts {
    /// The name of the current user.
    pub username: Seq<char>,
    /// The name of the host.
    pub hostname: Seq<char>,
    /// The name of the operating system distribution.
    pub distro: Seq<char>,
    /// The processor architecture.
    pub arch: Seq<char>,
    /// The kernel version, where the host gave one.
    pub kernel: Option<Seq<char>>,
    /// The time since boot in seconds, or the failure's message.
    pub uptime: Result<nat, Seq<char>>,
    /// The brand string of the processor.
    pub cpu: Seq<char>,
    /// The names of the graphics devices, in the order in which they were found.
    pub gpus: Seq<Seq<char>>,
    /// The amount in use and the amount installed, or the failure's message.
    pub memory: Result<(int, nat), Seq<char>>,
}

impl View for HostFacts {
    type V = Facts;

    open spec fn view(&self) -> Facts {
        Facts {
            username: self.username@,
            hostname: self.hostname@,
            distro: self.distro@,
            arch: self.arch@,
            kernel: match self.kernel {
                Some(version) => Some(version@),
                None => None,
            },
            uptime: match self.uptime {
                Ok(secs) => Ok(secs as nat),
                Err(message) => Err(message@),
            },
            cpu: self.cpu@,
            gpus: self.gpus@.map_values(|name: String| name@),
            memory: match self.memory {
                Ok(status) => Ok((status.used as int, status.total as nat)),
                Err(message) => Err(message@),
            },
        }
    }
}

/// The line of one graphics device.
pub open spec fn gpu_line(name: Seq<char>) -> Line {
    Line::Fact { label: "gpu"@, value: name }
}

impl Facts {
    /// The title: the user at the host.
    pub open spec fn title(self) -> Line {
        Line::Title { user: self.username, host: self.hostname }
    }

    /// The rule under the title, exactly as wide as the title.
    pub open spec fn rule(self) -> Line {
        Line::Separator { width: self.title().length() }
    }

    /// The operating system: the distribution, a space, the architecture.
    pub open spec fn os(self) -> Line {
        Line::Fact { label: "os"@, value: self.distro + " "@ + self.arch }
    }

    /// The kernel version, or `unknown` where the host gave none.
    pub open spec fn kernel_line(self) -> Line {
        Line::Fact {
            label: "kernel"@,
            value: match self.kernel {
                Some(version) => version,
                None => "unknown"@,
            },
        }
    }

    /// The uptime in hours and minutes. It has a meaning only where the
    /// uptime query succeeded.
    pub open spec fn uptime_line(self) -> Line {
        Line::Fact { label: "uptime"@, value: uptime_text(self.uptime->Ok_0) }
    }

    /// The brand string of the processor.
    pub open spec fn cpu_line(self) -> Line {
        Line::Fact { label: "cpu"@, value: self.cpu }
    }

    /// One line for each graphics device, in the order of the devices.
    pub open spec fn gpu_lines(self) -> Seq<Line> {
        self.gpus.map_values(|name: Seq<char>| gpu_line(name))
    }

    /// Memory in use and installed, or, where the query failed, the message
    /// of the failure in place of the value.
    pub open spec fn memory_line(self) -> Line {
        Line::Fact {
            label: "memory"@,
            value: match self.memory {
                Ok(status) => memory_text(status.0, status.1),
                Err(message) => message,
            },
        }
    }

    /// The facts column from top to bottom: title, rule, operating system,
    /// kernel, uptime, processor, the graphics devices, memory.
    pub open spec fn lines(self) -> Seq<Line> {
        seq![
            self.title(),
            self.rule(),
            self.os(),
            self.kernel_line(),
            self.uptime_line(),
            self.cpu_line(),
        ] + self.gpu_lines() + seq![self.memory_line()]
    }

    /// Whether none of the host's answers holds an escape character.
    pub open spec fn is_escape_free(self) -> bool {
        &&& !self.username.contains(ESCAPE)
        &&& !self.hostname.contains(ESCAPE)
        &&& !self.distro.contains(ESCAPE)
        &&& !self.arch.contains(ESCAPE)
        &&& self.kernel matches Some(version) ==> !version.contains(ESCAPE)
        &&& !self.cpu.contains(ESCAPE)
        &&& forall|k: int| 0 <= k < self.gpus.len() ==> !(#[trigger] self.gpus[k]).contains(ESCAPE)
        &&& self.memory matches Err(message) ==> !message.contains(ESCAPE)
    }

    /// Answers without an escape character give lines without one: neither
    /// the labels nor the formatted values bring one in.
    pub proof fn lemma_lines_are_escape_free(self, i: int)
        requires
            self.is_escape_free(),
            0 <= i < self.lines().len(),
        ensures
            self.lines()[i].is_escape_free(),
    {
        reveal_strlit("os");
        reveal_strlit(" ");
        reveal_strlit("kernel");
        reveal_strlit("unknown");
        reveal_strlit("uptime");
        reveal_strlit("cpu");
        reveal_strlit("gpu");
        reveal_strlit("memory");
        if i == 2 {
            lemma_concat_lacks(self.distro, " "@, ESCAPE);
            lemma_concat_lacks(self.distro + " "@, self.arch, ESCAPE);
        } else if i == 4 {
            lemma_uptime_text_is_escape_free(self.uptime->Ok_0);
        } else if 6 <= i < 6 + self.gpus.len() {
            assert(self.lines()[i] == gpu_line(self.gpus[i - 6]));
        } else if i == 6 + self.gpus.len() {
            if let Ok(status) = self.memory {
                lemma_memory_text_is_escape_free(status.0, status.1);
            }
        }
    }

    /// A host without graphics devices gets seven lines, none of them
    /// labelled `gpu`, and memory directly under the processor.
    pub proof fn lemma_no_devices_no_gpu_lines(self)
        requires
            self.gpus.len() == 0,
        ensures
            self.lines().len() == 7,
            self.lines()[5] == self.cpu_line(),
            self.lines()[6] == self.memory_line(),
            forall|i: int|
                0 <= i < 7 ==> !(#[trigger] self.lines()[i] is Fact && self.lines()[i]->label
                    == "gpu"@),
    {
        reveal_strlit("gpu");
        reveal_strlit("os");
        reveal_strlit("kernel");
        reveal_strlit("uptime");
        reveal_strlit("cpu");
        reveal_strlit("memory");
        assert("gpu"@.len() == 3 && "gpu"@[0] == 'g');
        assert("os"@.len() == 2);
        assert("kernel"@.len() == 6);
        assert("uptime"@.len() == 6);
        assert("cpu"@[0] == 'c');
        assert("memory"@.len() == 6);
        assert(self.lines() =~= seq![
            self.title(),
            self.rule(),
            self.os(),
            self.kernel_line(),
            self.uptime_line(),
            self.cpu_line(),
            self.memory_line(),
        ]);
    }

    /// Every graphics device has its own line, in the order of the devices,
    /// between the processor and memory.
    pub proof fn lemma_gpu_lines_in_order(self, k: int)
        requires
            0 <= k < self.gpus.len(),
        ensures
            self.lines().len() == 7 + self.gpus.len(),
            self.lines()[6 + k] == gpu_line(self.gpus[k]),
            self.lines()[6 + self.gpus.len() as int] == self.memory_line(),
    {
    }

    /// Where the memory query failed, the value of the memory line is the
    /// message of the failure, character for character.
    pub proof fn lemma_failed_memory_shows_message(self)
        requires
            self.memory is Err,
        ensures
            self.memory_line() == (Line::Fact { label: "memory"@, value: self.memory->Err_0 }),
            self.memory_line().length() == 6 + 2 + self.memory->Err_0.len(),
            self.lines().last() == self.memory_line(),
    {
        reveal_strlit("memory");
    }
}

/// A fact under a fixed label.
fn fact(label: &str, value: String) -> (out: InfoLine)
    ensures
        out@ == (Line::Fact { label: label@, value: value@ }),
{
    InfoLine::Normal { label: String::from_str(label), value }
}

/// Lays the answers of the host out as the lines of the facts column.
///
/// The uptime query is the only one whose failure is fatal: then there are no
/// lines, and the failure's message comes back instead. A failed memory query
/// shows its message as the value of the memory line; a missing kernel
/// version shows as `unknown`.
pub fn collect_lines(facts: &HostFacts) -> (out: Result<Vec<InfoLine>, String>)
    ensures
        match out {
            Ok(lines) => facts@.uptime is Ok && models(lines@) == facts@.lines(),
            Err(message) => facts@.uptime == Err::<nat, Seq<char>>(message@),
        },
{
    let secs: u64 = match &facts.uptime {
        Ok(secs) => *secs,
        Err(message) => {
            return Err(message.clone());
        },
    };
    let top_line = InfoLine::Top {
        username: facts.username.clone(),
        hostname: facts.hostname.clone(),
    };
    let second_line = InfoLine::Separator(top_line.len());
    let mut os = facts.distro.clone();
    os.append(" ");
    os.append(facts.arch.as_str());
    let os_line = fact("os", os);
    let kernel_line = fact(
        "kernel",
        match &facts.kernel {
            Some(version) => version.clone(),
            None => String::from_str("unknown"),
        },
    );
    let uptime_line = fact("uptime", format_uptime(secs));
    let cpu_line = fact("cpu", facts.cpu.clone());
    let ram_line = fact(
        "memory",
        match &facts.memory {
            Ok(status) => format_memory(status),
            Err(message) => message.clone(),
        },
    );

    let mut info_lines: Vec<InfoLine> = Vec::new();
    info_lines.push(top_line);
    info_lines.push(second_line);
    info_lines.push(os_line);
    info_lines.push(kernel_line);
    info_lines.push(uptime_line);
    info_lines.push(cpu_line);
    let ghost head = models(info_lines@);
    assert(head =~= seq![
        facts@.title(),
        facts@.rule(),
        facts@.os(),
        facts@.kernel_line(),
        facts@.uptime_line(),
        facts@.cpu_line(),
    ]);

    let mut k: usize = 0;
    while k < facts.gpus.len()
        invariant
            k <= facts.gpus.len(),
            models(info_lines@) == head + facts@.gpu_lines().take(k as int),
        decreases facts.gpus.len() - k,
    {
        let ghost before = info_lines@;
        info_lines.push(fact("gpu", facts.gpus[k as usize].clone()));
        proof {
            assert(models(info_lines@) =~= models(before).push(gpu_line(facts@.gpus[k as int])));
            assert(facts@.gpu_lines().take(k + 1) =~= facts@.gpu_lines().take(k as int).push(
                gpu_line(facts@.gpus[k as int]),
            ));
        }
        k = k + 1;
    }
    let ghost before = info_lines@;
    info_lines.push(ram_line);
    proof {
        assert(models(info_lines@) =~= models(before).push(facts@.memory_line()));
        assert(facts@.gpu_lines().take(k as int) =~= facts@.gpu_lines());
        assert(models(info_lines@) =~= facts@.lines());
    }
    Ok(info_lines)
}

} // verus!
