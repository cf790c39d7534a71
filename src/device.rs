//! Capture-capable network interfaces and how they are presented for
//! selection.
use vstd::prelude::*;
use vstd::string::StringExecFns;

verus! {

/// One capturable network interface.
pub struct Device {
    /// The interface identifier used to start a capture.
    pub name: String,
    pub desc: Option<String>,
}

pub struct DeviceView {
    pub name: Seq<char>,
    pub desc: Option<Seq<char>>,
}

impl View for Device {
    type V = DeviceView;

    open spec fn view(&self) -> DeviceView {
        DeviceView {
            name: self.name@,
            desc: match self.desc {
                Some(d) => Some(d@),
                None => None,
            },
        }
    }
}

/// A device as offered in a selection list.
pub struct CaptureDevice(pub Device);

/// `<description or 'No description'> - (<name>)`
pub open spec fn label_of(d: DeviceView) -> Seq<char> {
    let description = match d.desc {
        Some(x) => x,
        None => "No description"@,
    };
    description + " - ("@ + d.name + ")"@
}

fn copy_device(d: &Device) -> (r: Device)
    ensures
        r@ == d@,
{
    let desc = match &d.desc {
        Some(x) => Some(x.clone()),
        None => None,
    };
    Device { name: d.name.clone(), desc }
}

impl CaptureDevice {
    /// Converts a list of devices into a list of capture devices, in order.
    pub fn into(devices: &Vec<Device>) -> (r: Vec<CaptureDevice>)
        ensures
            r.len() == devices.len(),
            forall|i: int| 0 <= i < r.len() ==> (#[trigger] r[i]).0@ == devices[i]@,
    {
        let mut out: Vec<CaptureDevice> = Vec::new();
        let mut i: usize = 0;
        while i < devices.len()
            invariant
                i <= devices.len(),
                out.len() == i,
                forall|j: int| 0 <= j < i ==> (#[trigger] out[j]).0@ == devices[j]@,
            decreases devices.len() - i,
        {
            out.push(CaptureDevice(copy_device(&devices[i])));
            i += 1;
        }
        out
    }

    /// The label under which the device is offered.
    pub fn label(&self) -> (r: String)
        ensures
            r@ == label_of(self.0@),
    {
        let mut s = match &self.0.desc {
            Some(d) => d.clone(),
            None => String::from_str("No description"),
        };
        s.append(" - (");
        s.append(self.0.name.as_str());
        s.append(")");
        s
    }
}

/// The labels of a device list, in order.
pub fn labels(devices: &Vec<CaptureDevice>) -> (r: Vec<String>)
    ensures
        r.len() == devices.len(),
        forall|i: int| 0 <= i < r.len() ==> (#[trigger] r[i])@ == label_of(devices[i].0@),
{
    let mut out: Vec<String> = Vec::new();
    let mut i: usize = 0;
    while i < devices.len()
        invariant
            i <= devices.len(),
            out.len() == i,
            forall|j: int| 0 <= j < i ==> (#[trigger] out[j])@ == label_of(devices[j].0@),
        decreases devices.len() - i,
    {
        out.push(devices[i].label());
        i += 1;
    }
    out
}

} // verus!
