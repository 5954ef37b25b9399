//! The exact text of each generated SDK script.  Configuration values are
//! embedded by plain text substitution; the contracts state the resulting
//! text exactly, so what reaches the interpreter is pinned down.

use vstd::prelude::*;

verus! {

/// The resource-estimation script, with the subscription identifier and
/// location embedded.  No escaping is applied, so values holding quote
/// characters corrupt the generated script; `ConfigV::wf` does not forbid
/// them, and callers that care must reject such values.
pub fn estimation_script(subscription_id: &str, location: &str) -> (r: String)
    ensures
        r@ == ("\n        from azure.quantum import Workspace\n        from qsharp import compile\n\n        workspace = Workspace(\n            resource_id=\"")@
            + subscription_id@
            + ("\",\n            location=\"")@
            + location@
            + ("\"\n        )\n\n        qsharp_code = \\\"\\\"\\\"\n        open Microsoft.Quantum.Intrinsic;\n        open Microsoft.Quantum.Canon;\n\n        operation TestBellState() : Result {\n            use q = Qubit();\n            H(q);\n            let result = M(q);\n            Reset(q);\n            return result;\n        }\n        \\\"\\\"\\\"\n        compile(qsharp_code)\n        from Microsoft.Quantum.Canon import TestBellState\n        result = TestBellState.simulate()\n        print(result)\n        ")@,
{
    let mut out = String::from_str("\n        from azure.quantum import Workspace\n        from qsharp import compile\n\n        workspace = Workspace(\n            resource_id=\"");
    out.append(subscription_id);
    out.append("\",\n            location=\"");
    out.append(location);
    out.append("\"\n        )\n\n        qsharp_code = \\\"\\\"\\\"\n        open Microsoft.Quantum.Intrinsic;\n        open Microsoft.Quantum.Canon;\n\n        operation TestBellState() : Result {\n            use q = Qubit();\n            H(q);\n            let result = M(q);\n            Reset(q);\n            return result;\n        }\n        \\\"\\\"\\\"\n        compile(qsharp_code)\n        from Microsoft.Quantum.Canon import TestBellState\n        result = TestBellState.simulate()\n        print(result)\n        ");
    proof {
        assert(out@ =~= ("\n        from azure.quantum import Workspace\n        from qsharp import compile\n\n        workspace = Workspace(\n            resource_id=\"")@
            + subscription_id@
            + ("\",\n            location=\"")@
            + location@
            + ("\"\n        )\n\n        qsharp_code = \\\"\\\"\\\"\n        open Microsoft.Quantum.Intrinsic;\n        open Microsoft.Quantum.Canon;\n\n        operation TestBellState() : Result {\n            use q = Qubit();\n            H(q);\n            let result = M(q);\n            Reset(q);\n            return result;\n        }\n        \\\"\\\"\\\"\n        compile(qsharp_code)\n        from Microsoft.Quantum.Canon import TestBellState\n        result = TestBellState.simulate()\n        print(result)\n        ")@);
    }
    out
}

/// The fixed batch-estimation script.
pub fn batch_script() -> (r: String)
    ensures
        r@ == ("\n    from azure.quantum import Workspace\n    from qsharp.estimator import EstimatorParams, QubitParams, QECScheme\n\n    workspace = Workspace(\n        resource_id=\"your_subscription_id\",\n        location=\"your_location\"\n    )\n\n    params = EstimatorParams(num_items=2)\n    params.items[0].qubit_params.name = QubitParams.GATE_US_E3\n    params.items[0].qec_scheme.name = QECScheme.SURFACE_CODE\n    params.items[1].qubit_params.name = QubitParams.MAJ_NS_E6\n    params.items[1].qec_scheme.name = QECScheme.FLOQUET_CODE\n\n    result_batch = estimate(\"QuantumServerless.TestBellState\", params=params)\n    print(result_batch.summary_data_frame())\n    ")@,
{
    String::from_str("\n    from azure.quantum import Workspace\n    from qsharp.estimator import EstimatorParams, QubitParams, QECScheme\n\n    workspace = Workspace(\n        resource_id=\"your_subscription_id\",\n        location=\"your_location\"\n    )\n\n    params = EstimatorParams(num_items=2)\n    params.items[0].qubit_params.name = QubitParams.GATE_US_E3\n    params.items[0].qec_scheme.name = QECScheme.SURFACE_CODE\n    params.items[1].qubit_params.name = QubitParams.MAJ_NS_E6\n    params.items[1].qec_scheme.name = QECScheme.FLOQUET_CODE\n\n    result_batch = estimate(\"QuantumServerless.TestBellState\", params=params)\n    print(result_batch.summary_data_frame())\n    ")
}

/// The fixed job-monitoring script.
pub fn monitor_script() -> (r: String)
    ensures
        r@ == ("\n    from azure.quantum import Workspace\n\n    workspace = Workspace(\n        resource_id=\"your_subscription_id\",\n        location=\"your_location\"\n    )\n\n    for job in workspace.list_jobs():\n        print(job.id, job.details.name, job.details.status)\n    ")@,
{
    String::from_str("\n    from azure.quantum import Workspace\n\n    workspace = Workspace(\n        resource_id=\"your_subscription_id\",\n        location=\"your_location\"\n    )\n\n    for job in workspace.list_jobs():\n        print(job.id, job.details.name, job.details.status)\n    ")
}

/// The fixed performance-exercise script.
pub fn optimize_script() -> (r: String)
    ensures
        r@ == ("\n    import asyncio\n    import azure.functions as func\n\n    async def main(req: func.HttpRequest) -> func.HttpResponse:\n        await asyncio.sleep(1)\n        return func.HttpResponse(\"Hello, Quantum World!\")\n    ")@,
{
    String::from_str("\n    import asyncio\n    import azure.functions as func\n\n    async def main(req: func.HttpRequest) -> func.HttpResponse:\n        await asyncio.sleep(1)\n        return func.HttpResponse(\"Hello, Quantum World!\")\n    ")
}

} // verus!
