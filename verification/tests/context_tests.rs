use zenoh_flow_python::context::context_to_foreign;
use zenoh_flow_python::context::Context;
use zenoh_flow_python::foreign::dict_get;
use zenoh_flow_python::foreign::ForeignValue;
use zenoh_flow_python::loader::shared_library_filename;

fn sample_context() -> Context {
    Context {
        runtime_name: String::from("rt"),
        runtime_id: String::from("rt-1"),
        flow_name: String::from("flow"),
        instance_id: String::from("inst-9"),
        node_id: String::from("node-a"),
        mode: 1,
    }
}

#[test]
fn context_getters_read_the_record() {
    let c = sample_context();
    assert_eq!(c.mode(), 1);
    assert_eq!(c.data_flow_name(), "flow");
    assert_eq!(c.data_flow_instance_id(), "inst-9");
    assert_eq!(c.runtime_id(), "rt-1");
    assert_eq!(c.node_id(), "node-a");
}

#[test]
fn context_marshals_every_field() {
    let c = sample_context();
    match context_to_foreign(&c) {
        ForeignValue::Dict(entries) => {
            assert_eq!(entries.len(), 6);
            match dict_get(&entries, &String::from("node_id")) {
                Some(ForeignValue::Text(s)) => assert_eq!(s, "node-a"),
                _ => panic!("the node id crosses as text"),
            }
            match dict_get(&entries, &String::from("mode")) {
                Some(ForeignValue::Int { negative, magnitude }) => {
                    assert!(!negative);
                    assert_eq!(*magnitude, 1);
                }
                _ => panic!("the mode crosses as an integer"),
            }
        }
        _ => panic!("a context marshals to a dictionary"),
    }
}

#[test]
fn library_filename_is_prefix_stem_suffix() {
    assert_eq!(shared_library_filename("lib", "bridge", ".so"), "libbridge.so");
    assert_eq!(shared_library_filename("", "bridge", ".dll"), "bridge.dll");
}
