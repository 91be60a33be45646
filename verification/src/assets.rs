//! The parts of a page that do not depend on the form: its style sheet and the
//! body of its script.

use vstd::prelude::*;

verus! {

/// The style sheet of every page.
pub const STYLE_SHEET: &'static str = r##"* {
    box-sizing: border-box;
}
body {
    margin: 0;
    padding: 24px;
    font-family: -apple-system, BlinkMacSystemFont, "Segoe UI", Roboto, sans-serif;
    background: #f4f5f7;
    color: #1f2933;
}
.container {
    max-width: 860px;
    margin: 0 auto;
    padding: 24px 32px;
    background: #ffffff;
    border-radius: 8px;
    box-shadow: 0 1px 4px rgba(0, 0, 0, 0.12);
}
h1 {
    margin-top: 0;
    font-size: 1.6em;
}
h2 {
    font-size: 1.2em;
}
h3 {
    font-size: 1.05em;
}
.status {
    margin-bottom: 16px;
    padding: 8px 12px;
    border-radius: 4px;
}
.status.loading {
    background: #fff8e1;
    color: #8a6d00;
}
.status.success {
    background: #e6f4ea;
    color: #1e6b34;
}
.status.error {
    background: #fdecea;
    color: #a12622;
}
.form-section {
    margin-bottom: 20px;
}
.field-group {
    margin-bottom: 14px;
}
.field-group label {
    display: block;
    margin-bottom: 4px;
    font-weight: 600;
}
.checkbox-group label {
    display: inline-block;
    font-weight: 400;
}
.checkbox-group input {
    margin-right: 8px;
}
.help-text {
    display: block;
    margin-bottom: 4px;
    font-size: 0.85em;
    color: #616e7c;
}
input[type="text"],
input[type="number"],
select,
textarea {
    width: 100%;
    padding: 8px 10px;
    border: 1px solid #cbd2d9;
    border-radius: 4px;
    font: inherit;
}
.invalid {
    border-color: #d64545 !important;
}
.vec-container {
    padding: 8px;
    border: 1px solid #cbd2d9;
    border-radius: 4px;
}
.vec-items {
    display: flex;
    flex-wrap: wrap;
    gap: 6px;
    margin-top: 6px;
}
.vec-item {
    display: inline-flex;
    align-items: center;
    padding: 2px 8px;
    border-radius: 12px;
    background: #e4e7eb;
}
.vec-remove {
    margin-left: 6px;
    padding: 0 4px;
    border: none;
    background: none;
    color: #52606d;
    cursor: pointer;
}
.subcommand-fields {
    margin-top: 12px;
    padding: 12px 16px;
    border-left: 3px solid #3e7bfa;
    background: #f8fafc;
}
.button-group {
    display: flex;
    gap: 12px;
    margin: 20px 0;
}
button {
    padding: 8px 20px;
    border: none;
    border-radius: 4px;
    background: #3e7bfa;
    color: #ffffff;
    font: inherit;
    cursor: pointer;
}
button:disabled {
    background: #9aa5b1;
    cursor: not-allowed;
}
button.clear-btn {
    background: #7b8794;
}
.output-section label {
    display: block;
    margin-bottom: 4px;
    font-weight: 600;
}
#output {
    min-height: 80px;
    margin: 0;
    padding: 12px;
    border-radius: 4px;
    background: #1f2933;
    color: #e4e7eb;
    white-space: pre-wrap;
    word-break: break-word;
}
#output.error {
    color: #ff9b9b;
}
"##;

/// The script of every page, after the line that imports the module. It reads
/// the field model from `window.CLI_CONFIG`, checks the form, turns it into an
/// argument list and calls the imported function with it.
pub const SCRIPT_BODY: &'static str = r##"const config = window.CLI_CONFIG;
const statusArea = document.getElementById('status');
const outputArea = document.getElementById('output');
const runButton = document.getElementById('runButton');
const clearButton = document.getElementById('clearButton');
const selector = document.getElementById('subcommand-selector');
const SPACE = '\\t-\\r \\u0085\\u00A0\\u1680\\u2000-\\u200A\\u2028\\u2029\\u202F\\u205F\\u3000';
const EDGE_SPACE = new RegExp('^[' + SPACE + ']+|[' + SPACE + ']+$', 'g');
const LARGEST_NUMBER = 18446744073709551615n;
const STATUS_DELAY = 2000;

let moduleReady = false;
let statusTimer = null;

function trimmed(text) {
    return text.replace(EDGE_SPACE, '');
}

function controlId(prefix, field) {
    return prefix === null ? field.name : prefix + '-' + field.name;
}

function labelOf(field) {
    if (field.help !== '') {
        return field.help;
    }
    if (field.is_positional) {
        return field.name;
    }
    return field.long !== null ? field.long : field.name;
}

function flagToken(field) {
    if (field.long !== null) {
        return '--' + field.long;
    }
    if (field.short !== null) {
        return '-' + field.short;
    }
    return null;
}

function isIntegerText(text) {
    return /^[+-]?[0-9]+$/.test(text) && BigInt(text.replace(/^[+-]/, '')) <= LARGEST_NUMBER;
}

function countOf(text) {
    const digits = trimmed(text);
    if (!isIntegerText(digits) || digits.charAt(0) === '-') {
        return 0n;
    }
    return BigInt(digits.replace(/^\+/, ''));
}

function selectedSubcommand() {
    if (selector === null || selector.value === '') {
        return null;
    }
    const found = config.subcommands.filter((group) => group.name === selector.value);
    return found.length > 0 ? found[0] : null;
}

function itemsArea(id) {
    return document.getElementById(id + '-items');
}

function itemsOf(id) {
    return Array.from(itemsArea(id).children).map((chip) => chip.dataset.value);
}

function markedElement(field, id) {
    return field.field_type.type === 'Vec'
        ? document.getElementById(id + '-container')
        : document.getElementById(id);
}

function fieldErrors(field, prefix) {
    const kind = field.field_type.type;
    const id = controlId(prefix, field);
    const marked = markedElement(field, id);
    marked.classList.remove('invalid');
    const label = labelOf(field);
    if (kind === 'Integer' || kind === 'Counter') {
        const text = trimmed(marked.value);
        if (text !== '' && !isIntegerText(text)) {
            marked.classList.add('invalid');
            return ['Field "' + label + '": Invalid number value'];
        }
    }
    if (field.required && kind === 'Vec' && itemsOf(id).length === 0) {
        marked.classList.add('invalid');
        return ['Field "' + label + '": At least one value is required'];
    }
    if (field.required && kind !== 'Vec' && kind !== 'Bool' && trimmed(marked.value) === '') {
        marked.classList.add('invalid');
        return ['Field "' + label + '": This field is required'];
    }
    return [];
}

function validate() {
    let errors = [];
    for (const field of config.fields) {
        errors = errors.concat(fieldErrors(field, null));
    }
    const group = selectedSubcommand();
    if (group !== null) {
        for (const field of group.fields) {
            errors = errors.concat(fieldErrors(field, group.name));
        }
    }
    return errors;
}

function fieldTokens(field, prefix) {
    const kind = field.field_type.type;
    const id = controlId(prefix, field);
    const token = flagToken(field);
    const tokens = [];
    if (kind === 'Bool') {
        if (token !== null && document.getElementById(id).checked) {
            tokens.push(token);
        }
    } else if (kind === 'Counter') {
        if (token !== null) {
            const count = countOf(document.getElementById(id).value);
            for (let k = 0n; k < count; k += 1n) {
                tokens.push(token);
            }
        }
    } else if (kind === 'Vec') {
        for (const item of itemsOf(id)) {
            if (token !== null) {
                tokens.push(token);
            }
            tokens.push(item);
        }
    } else {
        const text = trimmed(document.getElementById(id).value);
        if (text !== '') {
            if (token !== null) {
                tokens.push(token);
            }
            tokens.push(text);
        }
    }
    return tokens;
}

function collectArguments() {
    let tokens = [];
    for (const field of config.fields) {
        tokens = tokens.concat(fieldTokens(field, null));
    }
    const group = selectedSubcommand();
    if (group !== null) {
        tokens.push(group.name);
        for (const field of group.fields) {
            tokens = tokens.concat(fieldTokens(field, group.name));
        }
    }
    return tokens;
}

function clearStatus() {
    if (statusTimer !== null) {
        clearTimeout(statusTimer);
        statusTimer = null;
    }
    statusArea.textContent = '';
    statusArea.className = '';
}

function showStatus(text, kind, transient) {
    clearStatus();
    statusArea.textContent = text;
    statusArea.className = 'status ' + kind;
    if (transient) {
        statusTimer = setTimeout(clearStatus, STATUS_DELAY);
    }
}

function showOutput(text, failed) {
    outputArea.textContent = text;
    outputArea.className = failed ? 'error' : '';
}

function describe(value) {
    if (typeof value === 'string') {
        return value;
    }
    if (value instanceof Error) {
        return value.message;
    }
    return JSON.stringify(value, null, 2);
}

async function run() {
    if (!moduleReady) {
        showOutput('The module is not loaded yet.', true);
        return;
    }
    if (runButton.disabled) {
        return;
    }
    const errors = validate();
    if (errors.length > 0) {
        showOutput(errors.join('\n'), true);
        return;
    }
    const tokens = collectArguments();
    runButton.disabled = true;
    try {
        const result = await invocable(tokens);
        if (result === undefined || result === null || result === '') {
            showOutput('(no output)', false);
        } else {
            showOutput(describe(result), false);
        }
        showStatus('Finished', 'success', true);
    } catch (failure) {
        showOutput('Error: ' + describe(failure), true);
    }
    runButton.disabled = false;
}

function resetFields(fields, prefix) {
    for (const field of fields) {
        const kind = field.field_type.type;
        const id = controlId(prefix, field);
        markedElement(field, id).classList.remove('invalid');
        if (kind === 'Bool') {
            document.getElementById(id).checked = false;
        } else if (kind === 'Vec') {
            itemsArea(id).replaceChildren();
            document.querySelector('input[data-field-name="' + CSS.escape(id) + '"]').value = '';
        } else {
            document.getElementById(id).value = '';
        }
    }
}

function showSelectedSection() {
    for (const section of document.querySelectorAll('.subcommand-fields')) {
        section.style.display =
            selector !== null && section.dataset.subcommand === selector.value ? 'block' : 'none';
    }
}

function reset() {
    resetFields(config.fields, null);
    for (const group of config.subcommands) {
        resetFields(group.fields, group.name);
    }
    if (selector !== null) {
        selector.value = '';
        showSelectedSection();
    }
    showOutput('', false);
    clearStatus();
}

function addItem(id, entry) {
    const value = trimmed(entry);
    if (value === '') {
        return;
    }
    const chip = document.createElement('span');
    chip.className = 'vec-item';
    chip.dataset.value = value;
    chip.appendChild(document.createTextNode(value));
    const remove = document.createElement('button');
    remove.type = 'button';
    remove.className = 'vec-remove';
    remove.textContent = 'x';
    remove.addEventListener('click', () => chip.remove());
    chip.appendChild(remove);
    itemsArea(id).appendChild(chip);
}

function watchEntries() {
    for (const input of document.querySelectorAll('.vec-input')) {
        input.addEventListener('keydown', (event) => {
            if (event.key === 'Enter') {
                event.preventDefault();
                addItem(input.dataset.fieldName, input.value);
                input.value = '';
            }
        });
    }
}

async function initModule() {
    runButton.disabled = true;
    showStatus('Loading module...', 'loading', false);
    try {
        await init();
        moduleReady = true;
        runButton.disabled = false;
        showStatus('Module loaded', 'success', true);
    } catch (failure) {
        moduleReady = false;
        showStatus('Failed to load the module: ' + describe(failure), 'error', false);
    }
}

watchEntries();
if (selector !== null) {
    selector.addEventListener('change', showSelectedSection);
}
runButton.addEventListener('click', run);
clearButton.addEventListener('click', reset);
initModule();
"##;

} // verus!
