//! What the metric publisher exports: the instruments, their units and the
//! attribute tags that go with each reading.

use vstd::prelude::*;
use crate::counters::SourceKind;

verus! {

/// The three exported instruments.
#[derive(Clone, Copy, Debug, PartialEq, Eq, Structural)]
pub enum Instrument {
    ContainerCpu,
    ProcessCpu,
    ProcessMemory,
}

/// The value of one attribute tag.
#[derive(Clone, Copy, Debug, PartialEq, Eq)]
pub enum AttributeValue {
    Text(&'static str),
    Integer(i64),
}

/// One attribute tag.
#[derive(Clone, Copy, Debug, PartialEq, Eq)]
pub struct Attribute {
    pub key: &'static str,
    pub value: AttributeValue,
}

pub open spec fn is_text(a: Attribute, key: Seq<char>, value: Seq<char>) -> bool {
    a.key@ == key && (a.value matches AttributeValue::Text(v) && v@ == value)
}

pub open spec fn is_integer(a: Attribute, key: Seq<char>, value: i64) -> bool {
    a.key@ == key && a.value == AttributeValue::Integer(value)
}

fn text(key: &'static str, value: &'static str) -> (r: Attribute)
    ensures
        is_text(r, key@, value@),
{
    Attribute { key, value: AttributeValue::Text(value) }
}

impl Instrument {
    pub fn name(&self) -> (r: &'static str)
        ensures
            *self == Instrument::ContainerCpu ==> r@ == "container_cpu_usage"@,
            *self == Instrument::ProcessCpu ==> r@ == "process_cpu_usage"@,
            *self == Instrument::ProcessMemory ==> r@ == "process_memory_usage"@,
    {
        match self {
            Instrument::ContainerCpu => "container_cpu_usage",
            Instrument::ProcessCpu => "process_cpu_usage",
            Instrument::ProcessMemory => "process_memory_usage",
        }
    }

    pub fn unit(&self) -> (r: &'static str)
        ensures
            *self == Instrument::ProcessMemory ==> r@ == "bytes"@,
            *self != Instrument::ProcessMemory ==> r@ == "percent"@,
    {
        match self {
            Instrument::ProcessMemory => "bytes",
            _ => "percent",
        }
    }

    /// The attribute tags of a reading: the service name and metric type;
    /// for the container figure its scope and the method it was computed
    /// by, which follows the source; for the process figures the process
    /// id and name.
    pub fn attributes(&self, source: SourceKind, pid: u32) -> (r: Vec<Attribute>)
        ensures
            r@.len() == 4,
            is_text(r@[0], "service.name"@, "shippingservice"@),
            *self == Instrument::ContainerCpu ==> {
                &&& is_text(r@[1], "metric.type"@, "container_cpu"@)
                &&& is_text(r@[2], "scope"@, "container"@)
                &&& is_text(
                    r@[3],
                    "calculation_method"@,
                    if source.is_cgroup() {
                        "cgroups"@
                    } else {
                        "proc_stat"@
                    },
                )
            },
            *self != Instrument::ContainerCpu ==> {
                &&& is_integer(r@[1], "process.pid"@, pid as i64)
                &&& is_text(r@[2], "process.name"@, "shippingservice"@)
                &&& is_text(
                    r@[3],
                    "metric.type"@,
                    if *self == Instrument::ProcessCpu {
                        "process_cpu"@
                    } else {
                        "process_memory"@
                    },
                )
            },
    {
        let mut r: Vec<Attribute> = Vec::new();
        r.push(text("service.name", "shippingservice"));
        match self {
            Instrument::ContainerCpu => {
                r.push(text("metric.type", "container_cpu"));
                r.push(text("scope", "container"));
                r.push(text("calculation_method", source.calculation_method()));
            },
            _ => {
                r.push(
                    Attribute { key: "process.pid", value: AttributeValue::Integer(pid as i64) },
                );
                r.push(text("process.name", "shippingservice"));
                let metric_type = if *self == Instrument::ProcessCpu {
                    "process_cpu"
                } else {
                    "process_memory"
                };
                r.push(text("metric.type", metric_type));
            },
        }
        r
    }
}

} // verus!
